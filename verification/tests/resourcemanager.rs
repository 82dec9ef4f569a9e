use litecraft::client::resourcemanager::{Font, ResourceManager, ResourseType, Texture};

#[test]
fn fresh_manager_has_nothing_loaded() {
    let rm = ResourceManager::new();
    assert!(rm.try_get_texture("logo").is_none());
    assert!(rm.try_get_texture("menu_1").is_none());
}

#[test]
fn load_queue_drains_in_reverse_order() {
    let mut rm = ResourceManager::new();
    let expected: [(&str, ResourseType); 11] = [
        ("gui/widgets", ResourseType::MinecraftTexture),
        ("title", ResourseType::LitecraftTexture),
        ("menu_9", ResourseType::LitecraftTexture),
        ("menu_8", ResourseType::LitecraftTexture),
        ("menu_7", ResourseType::LitecraftTexture),
        ("menu_6", ResourseType::LitecraftTexture),
        ("menu_5", ResourseType::LitecraftTexture),
        ("menu_4", ResourseType::LitecraftTexture),
        ("menu_3", ResourseType::LitecraftTexture),
        ("menu_2", ResourseType::LitecraftTexture),
        ("menu_1", ResourseType::LitecraftTexture),
    ];
    for (name, kind) in expected.iter() {
        let entry = rm.load_assets().expect("queue ended early");
        assert_eq!(entry.0, *name);
        assert_eq!(entry.1, *kind);
    }
    assert!(rm.load_assets().is_none());
    assert!(rm.load_assets().is_none());
}

#[test]
fn load_records_fonts_and_loading_screen_textures() {
    let mut rm = ResourceManager::new();
    let minecraft = Font { handle: 1, size: 16 };
    let litecraft = Font { handle: 2, size: 22 };
    let logo = Texture { handle: 3 };
    let background = Texture { handle: 4 };
    rm.load(minecraft, litecraft, logo, background);
    assert_eq!(*rm.get_minecraft_font(), minecraft);
    assert_eq!(*rm.get_litecraft_font(), litecraft);
    assert_eq!(*rm.get_texture("logo"), logo);
    assert_eq!(*rm.get_texture("background"), background);
    assert!(rm.try_get_texture("title").is_none());
}

#[test]
fn load_keeps_the_queue() {
    let mut rm = ResourceManager::new();
    rm.load(
        Font { handle: 1, size: 16 },
        Font { handle: 2, size: 22 },
        Texture { handle: 3 },
        Texture { handle: 4 },
    );
    let entry = rm.load_assets().expect("queue should still be full");
    assert_eq!(entry.0, "gui/widgets");
}

#[test]
fn insert_texture_then_get() {
    let mut rm = ResourceManager::new();
    rm.insert_texture("menu_1", Texture { handle: 7 });
    assert_eq!(*rm.get_texture("menu_1"), Texture { handle: 7 });
    assert_eq!(rm.try_get_texture("menu_1"), Some(&Texture { handle: 7 }));
}

#[test]
fn insert_texture_overwrites() {
    let mut rm = ResourceManager::new();
    rm.insert_texture("title", Texture { handle: 1 });
    rm.insert_texture("title", Texture { handle: 2 });
    assert_eq!(*rm.get_texture("title"), Texture { handle: 2 });
}

#[test]
fn asset_paths_follow_the_tree_layout() {
    assert_eq!(
        ResourceManager::get_asset("litecraft", "fonts", "minecraft", "ttf"),
        "./assets/litecraft/fonts/minecraft.ttf"
    );
    assert_eq!(
        ResourceManager::get_asset("litecraft", "fonts", "litecraft", "ttf"),
        "./assets/litecraft/fonts/litecraft.ttf"
    );
    assert_eq!(
        ResourceManager::get_asset("minecraft", "textures", "gui/widgets", "png"),
        "./assets/minecraft/textures/gui/widgets.png"
    );
    assert_eq!(
        ResourceManager::get_asset("litecraft", "textures", "logo", "png"),
        "./assets/litecraft/textures/logo.png"
    );
}

#[test]
fn texture_kinds_map_to_their_domains() {
    assert_eq!(ResourseType::LitecraftTexture.domain(), "litecraft");
    assert_eq!(ResourseType::MinecraftTexture.domain(), "minecraft");
}
