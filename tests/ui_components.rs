use extension_store::facepile::{AvatarShape, FacepileStory};
use extension_store::palette::{Keybinding, ModifierKeys, OrderMethod, Palette, PaletteItem, PaletteRow};
use extension_store::static_data::{
    example_editor_actions, static_collab_panel_channels, static_collab_panel_current_call,
    static_project_panel_project_items, static_project_panel_single_items, IconAsset, LabelColor,
    Label, ListItemSize, ToggleState,
};

#[test]
fn palette_defaults() {
    let p = Palette::new();
    assert_eq!(p.input_placeholder, "Find something...");
    assert_eq!(p.empty_string, "No items found.");
    assert!(p.items.is_empty());
    assert_eq!(p.default_order, OrderMethod::Ascending);
    let layout = p.render();
    assert_eq!(layout.header, Label::new("Find something...").color(LabelColor::Placeholder));
    assert_eq!(layout.rows, vec![PaletteRow::Message(Label::new("No items found.").color(LabelColor::Muted))]);
}

#[test]
fn palette_builders() {
    let p = Palette::new()
        .placeholder("Search")
        .empty_string("Nothing")
        .default_order(OrderMethod::MostRecent)
        .items(vec![PaletteItem::new("a"), PaletteItem::new("b")]);
    assert_eq!(p.input_placeholder, "Search");
    assert_eq!(p.empty_string, "Nothing");
    assert_eq!(p.default_order, OrderMethod::MostRecent);
    let layout = p.render();
    assert_eq!(layout.header.text, "Search");
    assert_eq!(layout.rows, vec![PaletteRow::Item(PaletteItem::new("a")), PaletteRow::Item(PaletteItem::new("b"))]);
}

#[test]
fn palette_item_builders() {
    let k = Keybinding::new("K".to_string(), ModifierKeys::new().control(true).shift(true));
    let item = PaletteItem::new("x").label("y").sublabel(Some("sub")).keybinding(Some(k.clone()));
    assert_eq!(item.label, "y");
    assert_eq!(item.sublabel, Some("sub"));
    assert_eq!(item.keybinding, Some(k));
    let rendered = item.render();
    assert_eq!(rendered.labels, vec![Label::new("y"), Label::new("sub")]);
    assert_eq!(rendered.keybinding, item.keybinding);
    assert_eq!(PaletteItem::new("z").render().labels, vec![Label::new("z")]);
    let m = ModifierKeys::new().control(true).shift(true);
    assert!(m.control && m.shift && !m.alt && !m.command);
}

#[test]
fn editor_actions() {
    let actions = example_editor_actions();
    assert_eq!(actions.len(), 20);
    assert_eq!(actions[0].label, "New File");
    let redo = actions[7].keybinding.clone().unwrap();
    assert_eq!(redo.key, "Z");
    assert!(redo.modifiers.control && redo.modifiers.shift);
    assert_eq!(actions[19].label, "Delete Line");
    assert!(actions[19].keybinding.is_none());
}

#[test]
fn project_panel_items() {
    let items = static_project_panel_project_items();
    assert_eq!(items.len(), 36);
    assert_eq!(items[0].label.text, "zed");
    assert_eq!(items[0].toggle, ToggleState::Toggled);
    assert_eq!(items[0].left_icon, Some(IconAsset::FolderOpen));
    assert_eq!(items[3].label.color, LabelColor::Hidden);
    assert_eq!(items[35].label.text, "README.md");
    assert_eq!(static_project_panel_single_items().len(), 3);
}

#[test]
fn collab_panel_items() {
    let call = static_collab_panel_current_call();
    assert_eq!(call.len(), 3);
    assert_eq!(call[0].left_avatar, Some("http://github.com/as-cii.png?s=50"));
    let channels = static_collab_panel_channels();
    assert_eq!(channels.len(), 14);
    assert!(channels.iter().all(|c| c.size == ListItemSize::Medium && c.left_icon == Some(IconAsset::Hash)));
    assert_eq!(channels[13].label.text, "web-tech");
}

#[test]
fn facepile_story() {
    let sections = FacepileStory {}.render();
    assert_eq!(sections.len(), 2);
    assert_eq!(sections[0].label, "Default");
    let sizes: Vec<usize> = sections[1].facepiles.iter().map(|f| f.players.len()).collect();
    assert_eq!(sizes, vec![1, 2, 3]);
    assert_eq!(sections[1].facepiles[2].players[2].shape, AvatarShape::RoundedRectangle);
    assert_eq!(sections[0].facepiles[0].players[0].shape, AvatarShape::Circle);
    assert_eq!(sections[1].facepiles[2].players[1].src, "https://avatars.githubusercontent.com/u/482957?v=4");
}
