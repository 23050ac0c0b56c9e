use rusted_ruins::buildobj::{
    build_anim_img_object, build_chara_template_object, build_deco_object, build_item_object,
    build_object, build_special_tile_object, build_talk_script_object, build_tile_object,
    build_ui_img_object, build_wall_object, AnimImgDepInput, ArmorKind, CharaTemplateDepInput,
    ElementArray, Img, ItemDepInput, ItemFlags, ItemKind, Object, PakCompileError,
    TalkScriptDepInput, TalkSection, TalkSectionInput, TileDepInput, TileKind, TomlInput,
    WeaponKind,
};

fn img() -> Img {
    Img { path: String::from("img/x.png"), w: 48, h: 96 }
}

fn input(object_type: &str, id: &str) -> TomlInput {
    TomlInput {
        object_type: String::from(object_type),
        id: String::from(id),
        image: Some(img()),
        item: None,
        tile: None,
        chara_template: None,
        anim_img: None,
        talk_script: None,
    }
}

fn item(kind: &str) -> ItemDepInput {
    ItemDepInput {
        item_kind: String::from(kind),
        weapon_kind: None,
        armor_kind: None,
        group: String::from("general"),
        basic_price: 120,
        w: 30,
        gen_weight: 7,
        shop_weight: None,
        gen_level: 2,
        dice_n: None,
        dice_x: None,
        def: None,
        eff: None,
        magical_effect: 1,
        medical_effect: 2,
        tool_effect: 3,
        use_effect: 4,
        nutrition: None,
        charge: Some(5),
        harvest: None,
        facility: Some(String::from("forge")),
    }
}

fn item_input(kind: &str) -> TomlInput {
    let mut t = input("item", "thing");
    t.item = Some(item(kind));
    t
}

fn missing(name: &str) -> PakCompileError {
    PakCompileError::MissingField { field_name: String::from(name) }
}

#[test]
fn item_defaults_are_filled_in() {
    let o = build_item_object(item_input("object")).unwrap();
    assert_eq!(o.id, "thing");
    assert_eq!(o.img, img());
    assert_eq!(o.kind, ItemKind::Object);
    assert_eq!(o.default_flags, ItemFlags { eatable: false, drinkable: false });
    assert_eq!(o.group, "general");
    assert_eq!(o.basic_price, 120);
    assert_eq!(o.w, 30);
    assert_eq!(o.gen_weight, 7);
    assert_eq!(o.shop_weight, 7);
    assert_eq!(o.gen_level, 2);
    assert_eq!(o.dice_n, 0);
    assert_eq!(o.dice_x, 0);
    assert_eq!(o.def, ElementArray([0, 0, 0, 0, 0, 0]));
    assert_eq!(o.eff, 0);
    assert_eq!(o.nutrition, 0);
    assert_eq!(
        (o.magical_effect, o.medical_effect, o.tool_effect, o.use_effect),
        (1, 2, 3, 4)
    );
    assert_eq!(o.charge, Some(5));
    assert_eq!(o.harvest, None);
    assert_eq!(o.facility, Some(String::from("forge")));
}

#[test]
fn item_values_that_are_given_are_kept() {
    let mut t = item_input("tool");
    {
        let i = t.item.as_mut().unwrap();
        i.shop_weight = Some(1);
        i.dice_n = Some(2);
        i.dice_x = Some(6);
        i.def = Some(ElementArray([1, 2, 3, 4, 5, 6]));
        i.eff = Some(9);
        i.nutrition = Some(400);
        i.harvest = Some(3);
    }
    let o = build_item_object(t).unwrap();
    assert_eq!(o.kind, ItemKind::Tool);
    assert_eq!(o.shop_weight, 1);
    assert_eq!((o.dice_n, o.dice_x), (2, 6));
    assert_eq!(o.def, ElementArray([1, 2, 3, 4, 5, 6]));
    assert_eq!(o.eff, 9);
    assert_eq!(o.nutrition, 400);
    assert_eq!(o.harvest, Some(3));
}

#[test]
fn item_kinds_by_name() {
    let plain = [
        ("object", ItemKind::Object),
        ("magic_device", ItemKind::MagicDevice),
        ("tool", ItemKind::Tool),
        ("material", ItemKind::Material),
        ("special", ItemKind::Special),
    ];
    for (name, kind) in plain {
        let o = build_item_object(item_input(name)).unwrap();
        assert_eq!(o.kind, kind);
        assert_eq!(o.default_flags, ItemFlags { eatable: false, drinkable: false });
    }
    let o = build_item_object(item_input("potion")).unwrap();
    assert_eq!(o.kind, ItemKind::Potion);
    assert_eq!(o.default_flags, ItemFlags { eatable: false, drinkable: true });
    let o = build_item_object(item_input("food")).unwrap();
    assert_eq!(o.kind, ItemKind::Food);
    assert_eq!(o.default_flags, ItemFlags { eatable: true, drinkable: false });
}

#[test]
fn weapons_and_armor_need_their_kind() {
    assert_eq!(build_item_object(item_input("weapon")), Err(missing("weapon_kind")));
    assert_eq!(build_item_object(item_input("armor")), Err(missing("armor_kind")));
    let mut t = item_input("weapon");
    t.item.as_mut().unwrap().weapon_kind = Some(WeaponKind::Spear);
    t.item.as_mut().unwrap().armor_kind = Some(ArmorKind::Head);
    assert_eq!(build_item_object(t).unwrap().kind, ItemKind::Weapon(WeaponKind::Spear));
    let mut t = item_input("armor");
    t.item.as_mut().unwrap().armor_kind = Some(ArmorKind::Shield);
    assert_eq!(build_item_object(t).unwrap().kind, ItemKind::Armor(ArmorKind::Shield));
}

#[test]
fn item_errors_come_in_order() {
    let mut t = input("item", "thing");
    t.image = None;
    assert_eq!(build_item_object(t), Err(missing("image")));
    assert_eq!(build_item_object(input("item", "thing")), Err(missing("item")));
    let mut t = item_input("gadget");
    t.image = None;
    assert_eq!(build_item_object(t), Err(missing("image")));
    assert_eq!(
        build_item_object(item_input("gadget")),
        Err(PakCompileError::UnexpectedValue {
            field_name: String::from("item_kind"),
            value: String::from("gadget"),
        })
    );
    assert_eq!(
        build_item_object(item_input("Food")),
        Err(PakCompileError::UnexpectedValue {
            field_name: String::from("item_kind"),
            value: String::from("Food"),
        })
    );
}

#[test]
fn objects_of_an_image_alone() {
    assert_eq!(build_deco_object(input("deco", "d")).unwrap().id, "d");
    assert_eq!(build_deco_object(input("deco", "d")).unwrap().img, img());
    assert_eq!(build_special_tile_object(input("special_tile", "s")).unwrap().id, "s");
    assert_eq!(build_ui_img_object(input("ui_img", "u")).unwrap().img, img());
    assert_eq!(build_wall_object(input("wall", "w")).unwrap().id, "w");
    let mut t = input("deco", "d");
    t.image = None;
    assert_eq!(build_deco_object(t), Err(missing("image")));
    let mut t = input("wall", "d");
    t.image = None;
    assert_eq!(build_wall_object(t), Err(missing("image")));
    let mut t = input("ui_img", "d");
    t.image = None;
    assert_eq!(build_ui_img_object(t), Err(missing("image")));
    let mut t = input("special_tile", "d");
    t.image = None;
    assert_eq!(build_special_tile_object(t), Err(missing("image")));
}

#[test]
fn tiles_templates_and_animations() {
    let mut t = input("tile", "water");
    assert_eq!(build_tile_object(input("tile", "water")), Err(missing("tile")));
    t.tile = Some(TileDepInput { kind: TileKind::Water });
    let o = build_tile_object(t).unwrap();
    assert_eq!((o.id.as_str(), o.kind), ("water", TileKind::Water));
    let mut t = input("tile", "water");
    t.image = None;
    assert_eq!(build_tile_object(t), Err(missing("tile")));

    let mut t = input("chara_template", "rat");
    assert_eq!(build_chara_template_object(input("chara_template", "rat")), Err(missing("chara_template")));
    t.chara_template = Some(CharaTemplateDepInput {
        race: String::from("animal"),
        gen_weight: 10,
        gen_level: 1,
        max_hp: 12,
        str: 1,
        vit: 2,
        dex: 3,
        int: 4,
        wil: 5,
        cha: 6,
        spd: 7,
    });
    t.image = None;
    assert_eq!(build_chara_template_object(t), Err(missing("image")));
    let mut t = input("chara_template", "rat");
    t.chara_template = Some(CharaTemplateDepInput {
        race: String::from("animal"),
        gen_weight: 10,
        gen_level: 1,
        max_hp: 12,
        str: 1,
        vit: 2,
        dex: 3,
        int: 4,
        wil: 5,
        cha: 6,
        spd: 7,
    });
    let o = build_chara_template_object(t).unwrap();
    assert_eq!(o.race, "animal");
    assert_eq!((o.gen_weight, o.gen_level, o.max_hp), (10, 1, 12));
    assert_eq!((o.str, o.vit, o.dex, o.int, o.wil, o.cha, o.spd), (1, 2, 3, 4, 5, 6, 7));

    let mut t = input("anim_img", "slash");
    assert_eq!(build_anim_img_object(input("anim_img", "slash")), Err(missing("anim_img")));
    t.anim_img = Some(AnimImgDepInput { duration: 40, n_frame: 4 });
    let o = build_anim_img_object(t).unwrap();
    assert_eq!((o.duration, o.n_frame, o.img), (40, 4, img()));
}

fn section(text: Option<&str>, is_empty: Option<bool>, sub: Option<Vec<&str>>) -> TalkSectionInput {
    TalkSectionInput {
        text: text.map(String::from),
        is_empty,
        reaction: String::from("end"),
        sub_reaction: sub.map(|v| v.into_iter().map(String::from).collect()),
    }
}

#[test]
fn talk_sections_get_their_default_text() {
    let mut t = input("talk_script", "elder");
    t.image = None;
    t.talk_script = Some(TalkScriptDepInput {
        sections: vec![
            (String::from("start"), section(None, None, None)),
            (String::from("ask"), section(None, Some(true), Some(vec!["yes", "no"]))),
            (String::from("silent"), section(None, Some(false), None)),
            (String::from("own"), section(Some("elder-special"), Some(true), None)),
        ],
    });
    let o = build_talk_script_object(t).unwrap();
    assert_eq!(o.id, "elder");
    let by = |text: Option<&str>, sub: Vec<&str>| TalkSection {
        text: text.map(String::from),
        reaction: String::from("end"),
        sub_reaction: sub.into_iter().map(String::from).collect(),
    };
    assert_eq!(
        o.sections,
        vec![
            (String::from("start"), by(Some("elder.start"), vec![])),
            (String::from("ask"), by(Some("elder.ask"), vec!["yes", "no"])),
            (String::from("silent"), by(None, vec![])),
            (String::from("own"), by(Some("elder-special"), vec![])),
        ]
    );
    assert_eq!(build_talk_script_object(input("talk_script", "x")), Err(missing("talk_script")));
}

#[test]
fn objects_are_built_by_their_type_name() {
    assert!(matches!(build_object(input("deco", "a")), Ok(Object::Deco(_))));
    assert!(matches!(build_object(input("special_tile", "a")), Ok(Object::SpecialTile(_))));
    assert!(matches!(build_object(input("ui_img", "a")), Ok(Object::UIImg(_))));
    assert!(matches!(build_object(input("wall", "a")), Ok(Object::Wall(_))));
    let mut t = item_input("food");
    t.object_type = String::from("item");
    match build_object(t) {
        Ok(Object::Item(o)) => assert_eq!(o.kind, ItemKind::Food),
        other => panic!("{:?}", other),
    }
    let mut t = input("tile", "a");
    t.tile = Some(TileDepInput { kind: TileKind::Ground });
    assert!(matches!(build_object(t), Ok(Object::Tile(_))));
    let mut t = input("anim_img", "a");
    t.anim_img = Some(AnimImgDepInput { duration: 1, n_frame: 1 });
    assert!(matches!(build_object(t), Ok(Object::AnimImg(_))));
    let mut t = input("talk_script", "a");
    t.talk_script = Some(TalkScriptDepInput { sections: vec![] });
    assert!(matches!(build_object(t), Ok(Object::TalkScript(_))));
    assert_eq!(build_object(input("chara_template", "a")), Err(missing("chara_template")));
    assert_eq!(build_object(input("item", "a")), Err(missing("item")));
    assert_eq!(build_object(input("sound", "a")), Err(PakCompileError::UnknownObjectType));
    assert_eq!(build_object(input("", "a")), Err(PakCompileError::UnknownObjectType));
}
