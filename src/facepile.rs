use vstd::prelude::*;

verus! {

#[derive(Clone, Copy, PartialEq, Eq, Debug, Structural)]
pub enum AvatarShape {
    Circle,
    RoundedRectangle,
}

/// A user picture, by the address of its image.
#[derive(Clone, Copy, PartialEq, Eq, Debug)]
pub struct Avatar {
    pub src: &'static str,
    pub shape: AvatarShape,
}

impl Avatar {
    pub fn new(src: &'static str) -> (r: Avatar)
        ensures
            r.src == src,
            r.shape == AvatarShape::Circle,
    {
        Avatar { src, shape: AvatarShape::Circle }
    }

    pub fn shape(self, shape: AvatarShape) -> (r: Avatar)
        ensures
            r.src == self.src,
            r.shape == shape,
    {
        Avatar { src: self.src, shape }
    }
}

/// Overlapping avatars of several users.
#[derive(Clone, Debug, PartialEq, Eq)]
pub struct Facepile {
    pub players: Vec<Avatar>,
}

/// A labelled row of facepiles.
#[derive(Clone, Debug, PartialEq, Eq)]
pub struct StorySection {
    pub label: &'static str,
    pub facepiles: Vec<Facepile>,
}

/// The addresses of the avatars the story shows, in order.
pub open spec fn story_avatar_sources() -> Seq<Seq<char>> {
    seq![
        "https://avatars.githubusercontent.com/u/1714999?v=4"@,
        "https://avatars.githubusercontent.com/u/482957?v=4"@,
        "https://avatars.githubusercontent.com/u/1789?v=4"@,
    ]
}

/// Showcase of facepiles of one, two and three users.
pub struct FacepileStory {}

/// Facepiles of the first one, two and three of `avatars`, each drawn with
/// `shape`.
fn growing_facepiles(avatars: &Vec<Avatar>, shape: AvatarShape) -> (r: Vec<Facepile>)
    ensures
        r@.len() == avatars@.len(),
        forall|k: int|
            0 <= k < r@.len() ==> (#[trigger] r@[k]).players@.len() == k + 1 && forall|j: int|
                0 <= j <= k ==> r@[k].players@[j] == (Avatar { src: avatars@[j].src, shape }),
{
    let mut piles: Vec<Facepile> = Vec::new();
    let mut k: usize = 0;
    while k < avatars.len()
        invariant
            k <= avatars.len(),
            piles@.len() == k,
            forall|m: int|
                0 <= m < k ==> (#[trigger] piles@[m]).players@.len() == m + 1 && forall|j: int|
                    0 <= j <= m ==> piles@[m].players@[j] == (Avatar { src: avatars@[j].src, shape }),
        decreases avatars.len() - k,
    {
        let mut players: Vec<Avatar> = Vec::new();
        let mut j: usize = 0;
        while j <= k
            invariant
                k < avatars.len(),
                j <= k + 1,
                players@.len() == j,
                forall|t: int| 0 <= t < j ==> players@[t] == (Avatar { src: avatars@[t].src, shape }),
            decreases k + 1 - j,
        {
            players.push(avatars[j].shape(shape));
            j = j + 1;
        }
        piles.push(Facepile { players });
        k = k + 1;
    }
    piles
}

impl FacepileStory {
    /// Two sections of three facepiles each, of one, two and three users:
    /// round avatars first, then rounded rectangles.
    pub fn render(&self) -> (r: Vec<StorySection>)
        ensures
            r@.len() == 2,
            forall|s: int|
                0 <= s < 2 ==> (#[trigger] r@[s]).facepiles@.len() == 3 && forall|k: int|
                    0 <= k < 3 ==> (#[trigger] r@[s].facepiles@[k]).players@.len() == k + 1,
            r@[0].label@ == "Default"@,
            r@[1].label@ == "Rounded rectangle avatars"@,
            forall|s: int, k: int, j: int|
                0 <= s < 2 && 0 <= j <= k < 3 ==> (#[trigger] r@[s].facepiles@[k].players@[j]).src@
                    == story_avatar_sources()[j],
            forall|k: int, j: int|
                0 <= j <= k < 3 ==> (#[trigger] r@[0].facepiles@[k].players@[j]).shape
                    == AvatarShape::Circle,
            forall|k: int, j: int|
                0 <= j <= k < 3 ==> (#[trigger] r@[1].facepiles@[k].players@[j]).shape
                    == AvatarShape::RoundedRectangle,
    {
        let mut avatars: Vec<Avatar> = Vec::new();
        avatars.push(Avatar::new("https://avatars.githubusercontent.com/u/1714999?v=4"));
        avatars.push(Avatar::new("https://avatars.githubusercontent.com/u/482957?v=4"));
        avatars.push(Avatar::new("https://avatars.githubusercontent.com/u/1789?v=4"));
        assert(avatars@.map_values(|a: Avatar| a.src@) =~= story_avatar_sources());
        let round = growing_facepiles(&avatars, AvatarShape::Circle);
        let rounded = growing_facepiles(&avatars, AvatarShape::RoundedRectangle);
        let mut sections: Vec<StorySection> = Vec::new();
        sections.push(StorySection { label: "Default", facepiles: round });
        sections.push(StorySection { label: "Rounded rectangle avatars", facepiles: rounded });
        proof {
            assert forall|s: int, k: int, j: int|
                0 <= s < 2 && 0 <= j <= k < 3 implies (#[trigger] sections@[s].facepiles@[k].players@[j]).src@
                    == story_avatar_sources()[j] by {
                assert(avatars@.map_values(|a: Avatar| a.src@)[j] == avatars@[j].src@);
            }
        }
        sections
    }
}

} // verus!
