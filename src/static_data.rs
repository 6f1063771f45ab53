use vstd::prelude::*;
use crate::palette::{Keybinding, ModifierKeys, PaletteItem};

verus! {

/// The color a label is drawn in.
#[derive(Clone, Copy, PartialEq, Eq, Debug, Structural)]
pub enum LabelColor {
    Default,
    Muted,
    Created,
    Modified,
    Deleted,
    Hidden,
    Placeholder,
}

/// A piece of text with a color.
#[derive(Clone, Copy, PartialEq, Eq, Debug)]
pub struct Label {
    pub text: &'static str,
    pub color: LabelColor,
}

impl Label {
    pub open spec fn new_spec(text: &'static str) -> Label {
        Label { text, color: LabelColor::Default }
    }

    #[verifier::when_used_as_spec(new_spec)]
    pub fn new(text: &'static str) -> (r: Label)
        ensures
            r == Label::new_spec(text),
    {
        Label { text, color: LabelColor::Default }
    }

    pub fn color(self, color: LabelColor) -> (r: Label)
        ensures
            r.text == self.text,
            r.color == color,
    {
        Label { text: self.text, color }
    }
}

/// The icons a list item can show on its left.
#[derive(Clone, Copy, PartialEq, Eq, Debug, Structural)]
pub enum IconAsset {
    File,
    FileDoc,
    FileLock,
    FileRust,
    FileToml,
    Folder,
    FolderOpen,
    Hash,
}

/// Whether a list item can be expanded, and whether it is.
#[derive(Clone, Copy, PartialEq, Eq, Debug, Structural)]
pub enum ToggleState {
    NotToggleable,
    Toggled,
    NotToggled,
}

#[derive(Clone, Copy, PartialEq, Eq, Debug, Structural)]
pub enum ListItemSize {
    Small,
    Medium,
}

/// One row of a panel list.
#[derive(Clone, Copy, PartialEq, Eq, Debug)]
pub struct ListItem {
    pub label: Label,
    pub left_icon: Option<IconAsset>,
    pub left_avatar: Option<&'static str>,
    pub indent_level: u32,
    pub toggle: ToggleState,
    pub size: ListItemSize,
}

impl ListItem {
    pub fn new(label: Label) -> (r: ListItem)
        ensures
            r.label == label,
            r.left_icon is None,
            r.left_avatar is None,
            r.indent_level == 0,
            r.toggle == ToggleState::NotToggleable,
            r.size == ListItemSize::Small,
    {
        ListItem {
            label,
            left_icon: None,
            left_avatar: None,
            indent_level: 0,
            toggle: ToggleState::NotToggleable,
            size: ListItemSize::Small,
        }
    }

    pub fn left_icon(self, icon: IconAsset) -> (r: ListItem)
        ensures
            r == (ListItem { left_icon: Some(icon), ..self }),
    {
        ListItem { left_icon: Some(icon), ..self }
    }

    pub fn left_avatar(self, url: &'static str) -> (r: ListItem)
        ensures
            r == (ListItem { left_avatar: Some(url), ..self }),
    {
        ListItem { left_avatar: Some(url), ..self }
    }

    pub fn indent_level(self, indent_level: u32) -> (r: ListItem)
        ensures
            r == (ListItem { indent_level, ..self }),
    {
        ListItem { indent_level, ..self }
    }

    pub fn set_toggle(self, toggle: ToggleState) -> (r: ListItem)
        ensures
            r == (ListItem { toggle, ..self }),
    {
        ListItem { toggle, ..self }
    }

    pub fn size(self, size: ListItemSize) -> (r: ListItem)
        ensures
            r == (ListItem { size, ..self }),
    {
        ListItem { size, ..self }
    }
}

/// The address of an avatar, if any.
pub open spec fn avatar_view(a: Option<&'static str>) -> Option<Seq<char>> {
    match a {
        Some(u) => Some(u@),
        None => None,
    }
}

/// The key of a keybinding, if any.
pub open spec fn key_view(k: Option<Keybinding>) -> Option<Seq<char>> {
    match k {
        Some(k) => Some(k.key@),
        None => None,
    }
}

/// The modifiers of a keybinding, if any.
pub open spec fn modifiers_of(k: Option<Keybinding>) -> Option<ModifierKeys> {
    match k {
        Some(k) => Some(k.modifiers),
        None => None,
    }
}

/// The sample tree of a project panel.
#[verifier::rlimit(50)]
pub fn static_project_panel_project_items() -> (r: Vec<ListItem>)
    ensures
        r@.len() == 36,
        r@.map_values(|i: ListItem| i.label.text@) =~= seq![
            "zed"@,
            ".cargo"@,
            ".config"@,
            ".git"@,
            ".cargo"@,
            ".idea"@,
            "assets"@,
            "cargo-target"@,
            "crates"@,
            "activity_indicator"@,
            "ai"@,
            "audio"@,
            "auto_update"@,
            "breadcrumbs"@,
            "call"@,
            "sqlez"@,
            "gpui2"@,
            "src"@,
            "derrive_element.rs"@,
            "storybook"@,
            "docs"@,
            "src"@,
            "ui"@,
            "component"@,
            "facepile.rs"@,
            "follow_group.rs"@,
            "list_item.rs"@,
            "tab.rs"@,
            "target"@,
            ".dockerignore"@,
            ".DS_Store"@,
            "Cargo.lock"@,
            "Cargo.toml"@,
            "Dockerfile"@,
            "Procfile"@,
            "README.md"@,
        ],
        r@.map_values(|i: ListItem| i.label.color) =~= seq![
            LabelColor::Default,
            LabelColor::Default,
            LabelColor::Default,
            LabelColor::Hidden,
            LabelColor::Default,
            LabelColor::Hidden,
            LabelColor::Default,
            LabelColor::Hidden,
            LabelColor::Default,
            LabelColor::Default,
            LabelColor::Default,
            LabelColor::Default,
            LabelColor::Default,
            LabelColor::Default,
            LabelColor::Default,
            LabelColor::Modified,
            LabelColor::Default,
            LabelColor::Default,
            LabelColor::Default,
            LabelColor::Modified,
            LabelColor::Default,
            LabelColor::Modified,
            LabelColor::Modified,
            LabelColor::Created,
            LabelColor::Default,
            LabelColor::Default,
            LabelColor::Created,
            LabelColor::Default,
            LabelColor::Hidden,
            LabelColor::Default,
            LabelColor::Hidden,
            LabelColor::Default,
            LabelColor::Default,
            LabelColor::Default,
            LabelColor::Default,
            LabelColor::Default,
        ],
        r@.map_values(|i: ListItem| i.left_icon) =~= seq![
            Some(IconAsset::FolderOpen),
            Some(IconAsset::Folder),
            Some(IconAsset::Folder),
            Some(IconAsset::Folder),
            Some(IconAsset::Folder),
            Some(IconAsset::Folder),
            Some(IconAsset::Folder),
            Some(IconAsset::Folder),
            Some(IconAsset::FolderOpen),
            Some(IconAsset::Folder),
            Some(IconAsset::Folder),
            Some(IconAsset::Folder),
            Some(IconAsset::Folder),
            Some(IconAsset::Folder),
            Some(IconAsset::Folder),
            Some(IconAsset::Folder),
            Some(IconAsset::FolderOpen),
            Some(IconAsset::FolderOpen),
            Some(IconAsset::FileRust),
            Some(IconAsset::FolderOpen),
            Some(IconAsset::Folder),
            Some(IconAsset::FolderOpen),
            Some(IconAsset::FolderOpen),
            Some(IconAsset::FolderOpen),
            Some(IconAsset::FileRust),
            Some(IconAsset::FileRust),
            Some(IconAsset::FileRust),
            Some(IconAsset::FileRust),
            Some(IconAsset::Folder),
            Some(IconAsset::File),
            Some(IconAsset::File),
            Some(IconAsset::FileLock),
            Some(IconAsset::FileToml),
            Some(IconAsset::File),
            Some(IconAsset::File),
            Some(IconAsset::FileDoc),
        ],
        r@.map_values(|i: ListItem| avatar_view(i.left_avatar)) =~= seq![
            None::<Seq<char>>,
            None::<Seq<char>>,
            None::<Seq<char>>,
            None::<Seq<char>>,
            None::<Seq<char>>,
            None::<Seq<char>>,
            None::<Seq<char>>,
            None::<Seq<char>>,
            None::<Seq<char>>,
            None::<Seq<char>>,
            None::<Seq<char>>,
            None::<Seq<char>>,
            None::<Seq<char>>,
            None::<Seq<char>>,
            None::<Seq<char>>,
            None::<Seq<char>>,
            None::<Seq<char>>,
            None::<Seq<char>>,
            None::<Seq<char>>,
            None::<Seq<char>>,
            None::<Seq<char>>,
            None::<Seq<char>>,
            None::<Seq<char>>,
            None::<Seq<char>>,
            None::<Seq<char>>,
            None::<Seq<char>>,
            None::<Seq<char>>,
            None::<Seq<char>>,
            None::<Seq<char>>,
            None::<Seq<char>>,
            None::<Seq<char>>,
            None::<Seq<char>>,
            None::<Seq<char>>,
            None::<Seq<char>>,
            None::<Seq<char>>,
            None::<Seq<char>>,
        ],
        r@.map_values(|i: ListItem| i.indent_level as int) =~= seq![
            0,
            1,
            1,
            1,
            1,
            1,
            1,
            1,
            1,
            2,
            2,
            2,
            2,
            2,
            2,
            2,
            2,
            3,
            4,
            1,
            2,
            3,
            4,
            5,
            6,
            6,
            6,
            6,
            1,
            1,
            1,
            1,
            1,
            1,
            1,
            1,
        ],
        r@.map_values(|i: ListItem| i.toggle) =~= seq![
            ToggleState::Toggled,
            ToggleState::NotToggleable,
            ToggleState::NotToggleable,
            ToggleState::NotToggleable,
            ToggleState::NotToggleable,
            ToggleState::NotToggleable,
            ToggleState::Toggled,
            ToggleState::NotToggleable,
            ToggleState::Toggled,
            ToggleState::NotToggleable,
            ToggleState::NotToggleable,
            ToggleState::NotToggleable,
            ToggleState::NotToggleable,
            ToggleState::NotToggleable,
            ToggleState::NotToggleable,
            ToggleState::NotToggled,
            ToggleState::Toggled,
            ToggleState::Toggled,
            ToggleState::NotToggleable,
            ToggleState::Toggled,
            ToggleState::Toggled,
            ToggleState::Toggled,
            ToggleState::Toggled,
            ToggleState::Toggled,
            ToggleState::NotToggleable,
            ToggleState::NotToggleable,
            ToggleState::NotToggleable,
            ToggleState::NotToggleable,
            ToggleState::NotToggleable,
            ToggleState::NotToggleable,
            ToggleState::NotToggleable,
            ToggleState::NotToggleable,
            ToggleState::NotToggleable,
            ToggleState::NotToggleable,
            ToggleState::NotToggleable,
            ToggleState::NotToggleable,
        ],
        r@.map_values(|i: ListItem| i.size) =~= seq![
            ListItemSize::Small,
            ListItemSize::Small,
            ListItemSize::Small,
            ListItemSize::Small,
            ListItemSize::Small,
            ListItemSize::Small,
            ListItemSize::Small,
            ListItemSize::Small,
            ListItemSize::Small,
            ListItemSize::Small,
            ListItemSize::Small,
            ListItemSize::Small,
            ListItemSize::Small,
            ListItemSize::Small,
            ListItemSize::Small,
            ListItemSize::Small,
            ListItemSize::Small,
            ListItemSize::Small,
            ListItemSize::Small,
            ListItemSize::Small,
            ListItemSize::Small,
            ListItemSize::Small,
            ListItemSize::Small,
            ListItemSize::Small,
            ListItemSize::Small,
            ListItemSize::Small,
            ListItemSize::Small,
            ListItemSize::Small,
            ListItemSize::Small,
            ListItemSize::Small,
            ListItemSize::Small,
            ListItemSize::Small,
            ListItemSize::Small,
            ListItemSize::Small,
            ListItemSize::Small,
            ListItemSize::Small,
        ],
{
    let mut items: Vec<ListItem> = Vec::new();
    items.push(ListItem::new(Label::new("zed")).left_icon(IconAsset::FolderOpen).indent_level(0).set_toggle(ToggleState::Toggled));
    items.push(ListItem::new(Label::new(".cargo")).left_icon(IconAsset::Folder).indent_level(1));
    items.push(ListItem::new(Label::new(".config")).left_icon(IconAsset::Folder).indent_level(1));
    items.push(ListItem::new(Label::new(".git").color(LabelColor::Hidden)).left_icon(IconAsset::Folder).indent_level(1));
    items.push(ListItem::new(Label::new(".cargo")).left_icon(IconAsset::Folder).indent_level(1));
    items.push(ListItem::new(Label::new(".idea").color(LabelColor::Hidden)).left_icon(IconAsset::Folder).indent_level(1));
    items.push(ListItem::new(Label::new("assets")).left_icon(IconAsset::Folder).indent_level(1).set_toggle(ToggleState::Toggled));
    items.push(ListItem::new(Label::new("cargo-target").color(LabelColor::Hidden)).left_icon(IconAsset::Folder).indent_level(1));
    items.push(ListItem::new(Label::new("crates")).left_icon(IconAsset::FolderOpen).indent_level(1).set_toggle(ToggleState::Toggled));
    items.push(ListItem::new(Label::new("activity_indicator")).left_icon(IconAsset::Folder).indent_level(2));
    items.push(ListItem::new(Label::new("ai")).left_icon(IconAsset::Folder).indent_level(2));
    items.push(ListItem::new(Label::new("audio")).left_icon(IconAsset::Folder).indent_level(2));
    items.push(ListItem::new(Label::new("auto_update")).left_icon(IconAsset::Folder).indent_level(2));
    items.push(ListItem::new(Label::new("breadcrumbs")).left_icon(IconAsset::Folder).indent_level(2));
    items.push(ListItem::new(Label::new("call")).left_icon(IconAsset::Folder).indent_level(2));
    items.push(ListItem::new(Label::new("sqlez").color(LabelColor::Modified)).left_icon(IconAsset::Folder).indent_level(2).set_toggle(ToggleState::NotToggled));
    items.push(ListItem::new(Label::new("gpui2")).left_icon(IconAsset::FolderOpen).indent_level(2).set_toggle(ToggleState::Toggled));
    items.push(ListItem::new(Label::new("src")).left_icon(IconAsset::FolderOpen).indent_level(3).set_toggle(ToggleState::Toggled));
    items.push(ListItem::new(Label::new("derrive_element.rs")).left_icon(IconAsset::FileRust).indent_level(4));
    items.push(ListItem::new(Label::new("storybook").color(LabelColor::Modified)).left_icon(IconAsset::FolderOpen).indent_level(1).set_toggle(ToggleState::Toggled));
    items.push(ListItem::new(Label::new("docs")).left_icon(IconAsset::Folder).indent_level(2).set_toggle(ToggleState::Toggled));
    items.push(ListItem::new(Label::new("src").color(LabelColor::Modified)).left_icon(IconAsset::FolderOpen).indent_level(3).set_toggle(ToggleState::Toggled));
    items.push(ListItem::new(Label::new("ui").color(LabelColor::Modified)).left_icon(IconAsset::FolderOpen).indent_level(4).set_toggle(ToggleState::Toggled));
    items.push(ListItem::new(Label::new("component").color(LabelColor::Created)).left_icon(IconAsset::FolderOpen).indent_level(5).set_toggle(ToggleState::Toggled));
    items.push(ListItem::new(Label::new("facepile.rs")).left_icon(IconAsset::FileRust).indent_level(6));
    items.push(ListItem::new(Label::new("follow_group.rs")).left_icon(IconAsset::FileRust).indent_level(6));
    items.push(ListItem::new(Label::new("list_item.rs").color(LabelColor::Created)).left_icon(IconAsset::FileRust).indent_level(6));
    items.push(ListItem::new(Label::new("tab.rs")).left_icon(IconAsset::FileRust).indent_level(6));
    items.push(ListItem::new(Label::new("target").color(LabelColor::Hidden)).left_icon(IconAsset::Folder).indent_level(1));
    items.push(ListItem::new(Label::new(".dockerignore")).left_icon(IconAsset::File).indent_level(1));
    items.push(ListItem::new(Label::new(".DS_Store").color(LabelColor::Hidden)).left_icon(IconAsset::File).indent_level(1));
    items.push(ListItem::new(Label::new("Cargo.lock")).left_icon(IconAsset::FileLock).indent_level(1));
    items.push(ListItem::new(Label::new("Cargo.toml")).left_icon(IconAsset::FileToml).indent_level(1));
    items.push(ListItem::new(Label::new("Dockerfile")).left_icon(IconAsset::File).indent_level(1));
    items.push(ListItem::new(Label::new("Procfile")).left_icon(IconAsset::File).indent_level(1));
    items.push(ListItem::new(Label::new("README.md")).left_icon(IconAsset::FileDoc).indent_level(1));
    items
}

/// A sample project panel of three loose files.
#[verifier::rlimit(50)]
pub fn static_project_panel_single_items() -> (r: Vec<ListItem>)
    ensures
        r@.len() == 3,
        r@.map_values(|i: ListItem| i.label.text@) =~= seq![
            "todo.md"@,
            "README.md"@,
            "config.json"@,
        ],
        r@.map_values(|i: ListItem| i.label.color) =~= seq![
            LabelColor::Default,
            LabelColor::Default,
            LabelColor::Default,
        ],
        r@.map_values(|i: ListItem| i.left_icon) =~= seq![
            Some(IconAsset::FileDoc),
            Some(IconAsset::FileDoc),
            Some(IconAsset::File),
        ],
        r@.map_values(|i: ListItem| avatar_view(i.left_avatar)) =~= seq![
            None::<Seq<char>>,
            None::<Seq<char>>,
            None::<Seq<char>>,
        ],
        r@.map_values(|i: ListItem| i.indent_level as int) =~= seq![
            0,
            0,
            0,
        ],
        r@.map_values(|i: ListItem| i.toggle) =~= seq![
            ToggleState::NotToggleable,
            ToggleState::NotToggleable,
            ToggleState::NotToggleable,
        ],
        r@.map_values(|i: ListItem| i.size) =~= seq![
            ListItemSize::Small,
            ListItemSize::Small,
            ListItemSize::Small,
        ],
{
    let mut items: Vec<ListItem> = Vec::new();
    items.push(ListItem::new(Label::new("todo.md")).left_icon(IconAsset::FileDoc).indent_level(0));
    items.push(ListItem::new(Label::new("README.md")).left_icon(IconAsset::FileDoc).indent_level(0));
    items.push(ListItem::new(Label::new("config.json")).left_icon(IconAsset::File).indent_level(0));
    items
}

/// The sample participants of a call.
#[verifier::rlimit(50)]
pub fn static_collab_panel_current_call() -> (r: Vec<ListItem>)
    ensures
        r@.len() == 3,
        r@.map_values(|i: ListItem| i.label.text@) =~= seq![
            "as-cii"@,
            "nathansobo"@,
            "maxbrunsfeld"@,
        ],
        r@.map_values(|i: ListItem| i.label.color) =~= seq![
            LabelColor::Default,
            LabelColor::Default,
            LabelColor::Default,
        ],
        r@.map_values(|i: ListItem| i.left_icon) =~= seq![
            None::<IconAsset>,
            None::<IconAsset>,
            None::<IconAsset>,
        ],
        r@.map_values(|i: ListItem| avatar_view(i.left_avatar)) =~= seq![
            Some("http://github.com/as-cii.png?s=50"@),
            Some("http://github.com/nathansobo.png?s=50"@),
            Some("http://github.com/maxbrunsfeld.png?s=50"@),
        ],
        r@.map_values(|i: ListItem| i.indent_level as int) =~= seq![
            0,
            0,
            0,
        ],
        r@.map_values(|i: ListItem| i.toggle) =~= seq![
            ToggleState::NotToggleable,
            ToggleState::NotToggleable,
            ToggleState::NotToggleable,
        ],
        r@.map_values(|i: ListItem| i.size) =~= seq![
            ListItemSize::Small,
            ListItemSize::Small,
            ListItemSize::Small,
        ],
{
    let mut items: Vec<ListItem> = Vec::new();
    items.push(ListItem::new(Label::new("as-cii")).left_avatar("http://github.com/as-cii.png?s=50").indent_level(0));
    items.push(ListItem::new(Label::new("nathansobo")).left_avatar("http://github.com/nathansobo.png?s=50").indent_level(0));
    items.push(ListItem::new(Label::new("maxbrunsfeld")).left_avatar("http://github.com/maxbrunsfeld.png?s=50").indent_level(0));
    items
}

/// The sample channel tree of a collaboration panel.
#[verifier::rlimit(50)]
pub fn static_collab_panel_channels() -> (r: Vec<ListItem>)
    ensures
        r@.len() == 14,
        r@.map_values(|i: ListItem| i.label.text@) =~= seq![
            "zed"@,
            "community"@,
            "dashboards"@,
            "feedback"@,
            "teams-in-channels-alpha"@,
            "current-projects"@,
            "codegen"@,
            "gpui2"@,
            "livestreaming"@,
            "open-source"@,
            "replace"@,
            "semantic-index"@,
            "vim"@,
            "web-tech"@,
        ],
        r@.map_values(|i: ListItem| i.label.color) =~= seq![
            LabelColor::Default,
            LabelColor::Default,
            LabelColor::Default,
            LabelColor::Default,
            LabelColor::Default,
            LabelColor::Default,
            LabelColor::Default,
            LabelColor::Default,
            LabelColor::Default,
            LabelColor::Default,
            LabelColor::Default,
            LabelColor::Default,
            LabelColor::Default,
            LabelColor::Default,
        ],
        r@.map_values(|i: ListItem| i.left_icon) =~= seq![
            Some(IconAsset::Hash),
            Some(IconAsset::Hash),
            Some(IconAsset::Hash),
            Some(IconAsset::Hash),
            Some(IconAsset::Hash),
            Some(IconAsset::Hash),
            Some(IconAsset::Hash),
            Some(IconAsset::Hash),
            Some(IconAsset::Hash),
            Some(IconAsset::Hash),
            Some(IconAsset::Hash),
            Some(IconAsset::Hash),
            Some(IconAsset::Hash),
            Some(IconAsset::Hash),
        ],
        r@.map_values(|i: ListItem| avatar_view(i.left_avatar)) =~= seq![
            None::<Seq<char>>,
            None::<Seq<char>>,
            None::<Seq<char>>,
            None::<Seq<char>>,
            None::<Seq<char>>,
            None::<Seq<char>>,
            None::<Seq<char>>,
            None::<Seq<char>>,
            None::<Seq<char>>,
            None::<Seq<char>>,
            None::<Seq<char>>,
            None::<Seq<char>>,
            None::<Seq<char>>,
            None::<Seq<char>>,
        ],
        r@.map_values(|i: ListItem| i.indent_level as int) =~= seq![
            0,
            1,
            2,
            2,
            2,
            1,
            2,
            2,
            2,
            2,
            2,
            2,
            2,
            2,
        ],
        r@.map_values(|i: ListItem| i.toggle) =~= seq![
            ToggleState::NotToggleable,
            ToggleState::NotToggleable,
            ToggleState::NotToggleable,
            ToggleState::NotToggleable,
            ToggleState::NotToggleable,
            ToggleState::NotToggleable,
            ToggleState::NotToggleable,
            ToggleState::NotToggleable,
            ToggleState::NotToggleable,
            ToggleState::NotToggleable,
            ToggleState::NotToggleable,
            ToggleState::NotToggleable,
            ToggleState::NotToggleable,
            ToggleState::NotToggleable,
        ],
        r@.map_values(|i: ListItem| i.size) =~= seq![
            ListItemSize::Medium,
            ListItemSize::Medium,
            ListItemSize::Medium,
            ListItemSize::Medium,
            ListItemSize::Medium,
            ListItemSize::Medium,
            ListItemSize::Medium,
            ListItemSize::Medium,
            ListItemSize::Medium,
            ListItemSize::Medium,
            ListItemSize::Medium,
            ListItemSize::Medium,
            ListItemSize::Medium,
            ListItemSize::Medium,
        ],
{
    let mut items: Vec<ListItem> = Vec::new();
    items.push(ListItem::new(Label::new("zed")).left_icon(IconAsset::Hash).size(ListItemSize::Medium).indent_level(0));
    items.push(ListItem::new(Label::new("community")).left_icon(IconAsset::Hash).size(ListItemSize::Medium).indent_level(1));
    items.push(ListItem::new(Label::new("dashboards")).left_icon(IconAsset::Hash).size(ListItemSize::Medium).indent_level(2));
    items.push(ListItem::new(Label::new("feedback")).left_icon(IconAsset::Hash).size(ListItemSize::Medium).indent_level(2));
    items.push(ListItem::new(Label::new("teams-in-channels-alpha")).left_icon(IconAsset::Hash).size(ListItemSize::Medium).indent_level(2));
    items.push(ListItem::new(Label::new("current-projects")).left_icon(IconAsset::Hash).size(ListItemSize::Medium).indent_level(1));
    items.push(ListItem::new(Label::new("codegen")).left_icon(IconAsset::Hash).size(ListItemSize::Medium).indent_level(2));
    items.push(ListItem::new(Label::new("gpui2")).left_icon(IconAsset::Hash).size(ListItemSize::Medium).indent_level(2));
    items.push(ListItem::new(Label::new("livestreaming")).left_icon(IconAsset::Hash).size(ListItemSize::Medium).indent_level(2));
    items.push(ListItem::new(Label::new("open-source")).left_icon(IconAsset::Hash).size(ListItemSize::Medium).indent_level(2));
    items.push(ListItem::new(Label::new("replace")).left_icon(IconAsset::Hash).size(ListItemSize::Medium).indent_level(2));
    items.push(ListItem::new(Label::new("semantic-index")).left_icon(IconAsset::Hash).size(ListItemSize::Medium).indent_level(2));
    items.push(ListItem::new(Label::new("vim")).left_icon(IconAsset::Hash).size(ListItemSize::Medium).indent_level(2));
    items.push(ListItem::new(Label::new("web-tech")).left_icon(IconAsset::Hash).size(ListItemSize::Medium).indent_level(2));
    items
}

/// Sample editor actions for a command palette: the first ten with a
/// keybinding, the rest without.
#[verifier::rlimit(50)]
pub fn example_editor_actions() -> (r: Vec<PaletteItem>)
    ensures
        r@.len() == 20,
        r@.map_values(|p: PaletteItem| p.label@) =~= seq![
            "New File"@,
            "Open File"@,
            "Save File"@,
            "Cut"@,
            "Copy"@,
            "Paste"@,
            "Undo"@,
            "Redo"@,
            "Find"@,
            "Replace"@,
            "Jump to Line"@,
            "Select All"@,
            "Deselect All"@,
            "Switch Document"@,
            "Insert Line Below"@,
            "Insert Line Above"@,
            "Move Line Up"@,
            "Move Line Down"@,
            "Toggle Comment"@,
            "Delete Line"@,
        ],
        r@.map_values(|p: PaletteItem| key_view(p.keybinding)) =~= seq![
            Some("N"@),
            Some("O"@),
            Some("S"@),
            Some("X"@),
            Some("C"@),
            Some("V"@),
            Some("Z"@),
            Some("Z"@),
            Some("F"@),
            Some("R"@),
            None::<Seq<char>>,
            None::<Seq<char>>,
            None::<Seq<char>>,
            None::<Seq<char>>,
            None::<Seq<char>>,
            None::<Seq<char>>,
            None::<Seq<char>>,
            None::<Seq<char>>,
            None::<Seq<char>>,
            None::<Seq<char>>,
        ],
        r@.map_values(|p: PaletteItem| modifiers_of(p.keybinding)) =~= seq![
            Some(ModifierKeys { control: true, alt: false, shift: false, command: false }),
            Some(ModifierKeys { control: true, alt: false, shift: false, command: false }),
            Some(ModifierKeys { control: true, alt: false, shift: false, command: false }),
            Some(ModifierKeys { control: true, alt: false, shift: false, command: false }),
            Some(ModifierKeys { control: true, alt: false, shift: false, command: false }),
            Some(ModifierKeys { control: true, alt: false, shift: false, command: false }),
            Some(ModifierKeys { control: true, alt: false, shift: false, command: false }),
            Some(ModifierKeys { control: true, alt: false, shift: true, command: false }),
            Some(ModifierKeys { control: true, alt: false, shift: false, command: false }),
            Some(ModifierKeys { control: true, alt: false, shift: false, command: false }),
            None::<ModifierKeys>,
            None::<ModifierKeys>,
            None::<ModifierKeys>,
            None::<ModifierKeys>,
            None::<ModifierKeys>,
            None::<ModifierKeys>,
            None::<ModifierKeys>,
            None::<ModifierKeys>,
            None::<ModifierKeys>,
            None::<ModifierKeys>,
        ],
        forall|i: int| 0 <= i < r@.len() ==> (#[trigger] r@[i]).sublabel is None,
{
    let mut actions: Vec<PaletteItem> = Vec::new();
    actions.push(PaletteItem::new("New File").keybinding(Some(Keybinding::new("N".to_owned(), ModifierKeys::new().control(true)))));
    actions.push(PaletteItem::new("Open File").keybinding(Some(Keybinding::new("O".to_owned(), ModifierKeys::new().control(true)))));
    actions.push(PaletteItem::new("Save File").keybinding(Some(Keybinding::new("S".to_owned(), ModifierKeys::new().control(true)))));
    actions.push(PaletteItem::new("Cut").keybinding(Some(Keybinding::new("X".to_owned(), ModifierKeys::new().control(true)))));
    actions.push(PaletteItem::new("Copy").keybinding(Some(Keybinding::new("C".to_owned(), ModifierKeys::new().control(true)))));
    actions.push(PaletteItem::new("Paste").keybinding(Some(Keybinding::new("V".to_owned(), ModifierKeys::new().control(true)))));
    actions.push(PaletteItem::new("Undo").keybinding(Some(Keybinding::new("Z".to_owned(), ModifierKeys::new().control(true)))));
    actions.push(PaletteItem::new("Redo").keybinding(Some(Keybinding::new("Z".to_owned(), ModifierKeys::new().control(true).shift(true)))));
    actions.push(PaletteItem::new("Find").keybinding(Some(Keybinding::new("F".to_owned(), ModifierKeys::new().control(true)))));
    actions.push(PaletteItem::new("Replace").keybinding(Some(Keybinding::new("R".to_owned(), ModifierKeys::new().control(true)))));
    actions.push(PaletteItem::new("Jump to Line"));
    actions.push(PaletteItem::new("Select All"));
    actions.push(PaletteItem::new("Deselect All"));
    actions.push(PaletteItem::new("Switch Document"));
    actions.push(PaletteItem::new("Insert Line Below"));
    actions.push(PaletteItem::new("Insert Line Above"));
    actions.push(PaletteItem::new("Move Line Up"));
    actions.push(PaletteItem::new("Move Line Down"));
    actions.push(PaletteItem::new("Toggle Comment"));
    actions.push(PaletteItem::new("Delete Line"));
    actions
}

} // verus!
