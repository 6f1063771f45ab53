use vstd::prelude::*;
use crate::static_data::{Label, LabelColor};

verus! {

/// The order in which a palette lists its items.
#[derive(Clone, Copy, PartialEq, Eq, Debug, Structural)]
pub enum OrderMethod {
    Ascending,
    Descending,
    MostRecent,
}

impl OrderMethod {
    /// The order a palette starts with.
    pub fn default_method() -> (r: OrderMethod)
        ensures
            r == OrderMethod::Ascending,
    {
        OrderMethod::Ascending
    }
}

/// Modifier keys held with a key.
#[derive(Clone, Copy, PartialEq, Eq, Debug, Structural)]
pub struct ModifierKeys {
    pub control: bool,
    pub alt: bool,
    pub shift: bool,
    pub command: bool,
}

impl ModifierKeys {
    /// No modifier held.
    pub fn new() -> (r: ModifierKeys)
        ensures
            !r.control && !r.alt && !r.shift && !r.command,
    {
        ModifierKeys { control: false, alt: false, shift: false, command: false }
    }

    pub fn control(self, control: bool) -> (r: ModifierKeys)
        ensures
            r == (ModifierKeys { control, ..self }),
    {
        ModifierKeys { control, ..self }
    }

    pub fn alt(self, alt: bool) -> (r: ModifierKeys)
        ensures
            r == (ModifierKeys { alt, ..self }),
    {
        ModifierKeys { alt, ..self }
    }

    pub fn shift(self, shift: bool) -> (r: ModifierKeys)
        ensures
            r == (ModifierKeys { shift, ..self }),
    {
        ModifierKeys { shift, ..self }
    }

    pub fn command(self, command: bool) -> (r: ModifierKeys)
        ensures
            r == (ModifierKeys { command, ..self }),
    {
        ModifierKeys { command, ..self }
    }
}

/// A key together with the modifiers held with it.
#[derive(Clone, Debug, PartialEq, Eq)]
pub struct Keybinding {
    pub key: String,
    pub modifiers: ModifierKeys,
}

impl Keybinding {
    pub fn new(key: String, modifiers: ModifierKeys) -> (r: Keybinding)
        ensures
            r.key == key,
            r.modifiers == modifiers,
    {
        Keybinding { key, modifiers }
    }
}

/// One entry of a palette.
#[derive(Clone, Debug, PartialEq, Eq)]
pub struct PaletteItem {
    pub label: &'static str,
    pub sublabel: Option<&'static str>,
    pub keybinding: Option<Keybinding>,
}

impl PaletteItem {
    /// An item with a label and nothing else.
    pub fn new(label: &'static str) -> (r: PaletteItem)
        ensures
            r.label == label,
            r.sublabel is None,
            r.keybinding is None,
    {
        PaletteItem { label, sublabel: None, keybinding: None }
    }

    pub fn label(self, label: &'static str) -> (r: PaletteItem)
        ensures
            r == (PaletteItem { label, ..self }),
    {
        PaletteItem { label, ..self }
    }

    pub fn sublabel(self, sublabel: Option<&'static str>) -> (r: PaletteItem)
        ensures
            r == (PaletteItem { sublabel, ..self }),
    {
        PaletteItem { sublabel, ..self }
    }

    pub fn keybinding(self, keybinding: Option<Keybinding>) -> (r: PaletteItem)
        ensures
            r == (PaletteItem { keybinding, ..self }),
    {
        PaletteItem { keybinding, ..self }
    }
}

/// A searchable list of items with an input line above it.
#[derive(Clone, Debug, PartialEq, Eq)]
pub struct Palette {
    pub input_placeholder: &'static str,
    pub empty_string: &'static str,
    pub items: Vec<PaletteItem>,
    pub default_order: OrderMethod,
}

/// A row of a palette's list: the empty-list message, or an item.
#[derive(Clone, Debug, PartialEq, Eq)]
pub enum PaletteRow {
    Message(Label),
    Item(PaletteItem),
}

/// What a palette draws: its input line, then its list.
#[derive(Clone, Debug, PartialEq, Eq)]
pub struct PaletteLayout {
    pub header: Label,
    pub rows: Vec<PaletteRow>,
}

/// The key of a keybinding, if any.
pub open spec fn binding_key(k: Option<Keybinding>) -> Option<Seq<char>> {
    match k {
        Some(k) => Some(k.key@),
        None => None,
    }
}

/// The modifiers of a keybinding, if any.
pub open spec fn binding_modifiers(k: Option<Keybinding>) -> Option<ModifierKeys> {
    match k {
        Some(k) => Some(k.modifiers),
        None => None,
    }
}

/// `a` shows what `b` shows.
pub open spec fn same_item(a: PaletteItem, b: PaletteItem) -> bool {
    a.label == b.label && a.sublabel == b.sublabel && binding_key(a.keybinding) == binding_key(
        b.keybinding,
    ) && binding_modifiers(a.keybinding) == binding_modifiers(b.keybinding)
}

/// `row` is a row for `item`.
pub open spec fn row_shows(row: PaletteRow, item: PaletteItem) -> bool {
    match row {
        PaletteRow::Item(it) => same_item(it, item),
        PaletteRow::Message(_) => false,
    }
}

/// What an item draws: its label, its sublabel if any, and its keybinding
/// if any.
#[derive(Clone, Debug, PartialEq, Eq)]
pub struct PaletteItemLayout {
    pub labels: Vec<Label>,
    pub keybinding: Option<Keybinding>,
}

impl PaletteItem {
    /// A copy of this item.
    pub fn duplicate(&self) -> (r: PaletteItem)
        ensures
            same_item(r, *self),
    {
        let keybinding = match &self.keybinding {
            Some(k) => Some(Keybinding { key: k.key.clone(), modifiers: k.modifiers }),
            None => None,
        };
        PaletteItem { label: self.label, sublabel: self.sublabel, keybinding }
    }

    /// The label, then the sublabel if there is one, beside the keybinding.
    pub fn render(&self) -> (r: PaletteItemLayout)
        ensures
            r.labels@.len() == (if self.sublabel is Some { 2int } else { 1int }),
            r.labels@[0] == Label::new_spec(self.label),
            self.sublabel matches Some(sub) ==> r.labels@[1] == Label::new_spec(sub),
            binding_key(r.keybinding) == binding_key(self.keybinding),
            binding_modifiers(r.keybinding) == binding_modifiers(self.keybinding),
    {
        let mut labels: Vec<Label> = Vec::new();
        labels.push(Label::new(self.label));
        if let Some(sub) = self.sublabel {
            labels.push(Label::new(sub));
        }
        PaletteItemLayout { labels, keybinding: self.duplicate().keybinding }
    }
}

impl Palette {
    /// An empty palette with the usual placeholder and empty-list message.
    pub fn new() -> (r: Palette)
        ensures
            r.input_placeholder@ == "Find something..."@,
            r.empty_string@ == "No items found."@,
            r.items@.len() == 0,
            r.default_order == OrderMethod::Ascending,
    {
        Palette {
            input_placeholder: "Find something...",
            empty_string: "No items found.",
            items: Vec::new(),
            default_order: OrderMethod::default_method(),
        }
    }

    pub fn items(self, items: Vec<PaletteItem>) -> (r: Palette)
        ensures
            r == (Palette { items, ..self }),
    {
        Palette { items, ..self }
    }

    pub fn placeholder(self, input_placeholder: &'static str) -> (r: Palette)
        ensures
            r == (Palette { input_placeholder, ..self }),
    {
        Palette { input_placeholder, ..self }
    }

    pub fn empty_string(self, empty_string: &'static str) -> (r: Palette)
        ensures
            r == (Palette { empty_string, ..self }),
    {
        Palette { empty_string, ..self }
    }

    pub fn default_order(self, default_order: OrderMethod) -> (r: Palette)
        ensures
            r == (Palette { default_order, ..self }),
    {
        Palette { default_order, ..self }
    }

    /// The input line shows the placeholder; below it comes the empty-list
    /// message, muted, when there are no items, else one row per item, in
    /// order.
    pub fn render(&self) -> (r: PaletteLayout)
        ensures
            r.header == (Label { text: self.input_placeholder, color: LabelColor::Placeholder }),
            self.items@.len() == 0 ==> r.rows@.len() == 1 && r.rows@[0] == PaletteRow::Message(
                Label { text: self.empty_string, color: LabelColor::Muted },
            ),
            self.items@.len() > 0 ==> r.rows@.len() == self.items@.len() && forall|i: int|
                0 <= i < r.rows@.len() ==> row_shows(#[trigger] r.rows@[i], self.items@[i]),
    {
        let header = Label::new(self.input_placeholder).color(LabelColor::Placeholder);
        let mut rows: Vec<PaletteRow> = Vec::new();
        if self.items.len() == 0 {
            rows.push(PaletteRow::Message(Label::new(self.empty_string).color(LabelColor::Muted)));
            return PaletteLayout { header, rows };
        }
        let mut i: usize = 0;
        while i < self.items.len()
            invariant
                i <= self.items.len(),
                rows@.len() == i,
                forall|k: int|
                    0 <= k < i ==> row_shows(#[trigger] rows@[k], self.items@[k]),
            decreases self.items.len() - i,
        {
            rows.push(PaletteRow::Item(self.items[i].duplicate()));
            i = i + 1;
        }
        PaletteLayout { header, rows }
    }
}

} // verus!
