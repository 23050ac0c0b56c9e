use vstd::prelude::*;

verus! {

/// An image as it was read for an object: where it lies and how large it is.
#[derive(Debug, PartialEq, Eq)]
pub struct Img {
    pub path: String,
    pub w: u32,
    pub h: u32,
}

#[derive(Clone, Copy, Debug, PartialEq, Eq, Structural)]
pub enum WeaponKind {
    Axe,
    Bow,
    Spear,
    Sword,
}

#[derive(Clone, Copy, Debug, PartialEq, Eq, Structural)]
pub enum ArmorKind {
    Body,
    Head,
    Shield,
}

#[derive(Clone, Copy, Debug, PartialEq, Eq, Structural)]
pub enum ItemKind {
    Object,
    Potion,
    Food,
    MagicDevice,
    Weapon(WeaponKind),
    Armor(ArmorKind),
    Tool,
    Material,
    Special,
}

#[derive(Clone, Copy, Debug, PartialEq, Eq, Structural)]
pub enum TileKind {
    Ground,
    Water,
}

/// What can be done with every item of a sort.
#[derive(Clone, Copy, Debug, PartialEq, Eq, Structural)]
pub struct ItemFlags {
    pub eatable: bool,
    pub drinkable: bool,
}

/// One number for each element.
#[derive(Clone, Copy, Debug, PartialEq, Eq)]
pub struct ElementArray(pub [u16; 6]);

/// The part of a description that only an item has.
#[derive(Debug, PartialEq, Eq)]
pub struct ItemDepInput {
    pub item_kind: String,
    pub weapon_kind: Option<WeaponKind>,
    pub armor_kind: Option<ArmorKind>,
    pub group: String,
    pub basic_price: u32,
    pub w: u32,
    pub gen_weight: u32,
    pub shop_weight: Option<u32>,
    pub gen_level: u32,
    pub dice_n: Option<u16>,
    pub dice_x: Option<u16>,
    pub def: Option<ElementArray>,
    pub eff: Option<u16>,
    pub magical_effect: u32,
    pub medical_effect: u32,
    pub tool_effect: u32,
    pub use_effect: u32,
    pub nutrition: Option<u16>,
    pub charge: Option<u8>,
    pub harvest: Option<u32>,
    pub facility: Option<String>,
}

/// The part of a description that only a tile has.
#[derive(Debug, PartialEq, Eq)]
pub struct TileDepInput {
    pub kind: TileKind,
}

/// The part of a description that only a character template has.
#[derive(Debug, PartialEq, Eq)]
pub struct CharaTemplateDepInput {
    pub race: String,
    pub gen_weight: u32,
    pub gen_level: u32,
    pub max_hp: i32,
    pub str: u16,
    pub vit: u16,
    pub dex: u16,
    pub int: u16,
    pub wil: u16,
    pub cha: u16,
    pub spd: u16,
}

/// The part of a description that only an animation has.
#[derive(Debug, PartialEq, Eq)]
pub struct AnimImgDepInput {
    pub duration: u32,
    pub n_frame: u32,
}

/// One section of a talk script as it was written.
#[derive(Debug, PartialEq, Eq)]
pub struct TalkSectionInput {
    pub text: Option<String>,
    pub is_empty: Option<bool>,
    pub reaction: String,
    pub sub_reaction: Option<Vec<String>>,
}

/// The part of a description that only a talk script has: its sections by name.
#[derive(Debug, PartialEq, Eq)]
pub struct TalkScriptDepInput {
    pub sections: Vec<(String, TalkSectionInput)>,
}

/// The description of one object, as it was read.
#[derive(Debug, PartialEq, Eq)]
pub struct TomlInput {
    pub object_type: String,
    pub id: String,
    pub image: Option<Img>,
    pub item: Option<ItemDepInput>,
    pub tile: Option<TileDepInput>,
    pub chara_template: Option<CharaTemplateDepInput>,
    pub anim_img: Option<AnimImgDepInput>,
    pub talk_script: Option<TalkScriptDepInput>,
}

#[derive(Debug, PartialEq, Eq)]
pub struct ItemObject {
    pub id: String,
    pub img: Img,
    pub default_flags: ItemFlags,
    pub kind: ItemKind,
    pub group: String,
    pub basic_price: u32,
    pub w: u32,
    pub gen_weight: u32,
    pub shop_weight: u32,
    pub gen_level: u32,
    pub dice_n: u16,
    pub dice_x: u16,
    pub def: ElementArray,
    pub eff: u16,
    pub magical_effect: u32,
    pub medical_effect: u32,
    pub tool_effect: u32,
    pub use_effect: u32,
    pub nutrition: u16,
    pub charge: Option<u8>,
    pub harvest: Option<u32>,
    pub facility: Option<String>,
}

#[derive(Debug, PartialEq, Eq)]
pub struct DecoObject {
    pub id: String,
    pub img: Img,
}

#[derive(Debug, PartialEq, Eq)]
pub struct SpecialTileObject {
    pub id: String,
    pub img: Img,
}

#[derive(Debug, PartialEq, Eq)]
pub struct TileObject {
    pub id: String,
    pub img: Img,
    pub kind: TileKind,
}

#[derive(Debug, PartialEq, Eq)]
pub struct UIImgObject {
    pub id: String,
    pub img: Img,
}

#[derive(Debug, PartialEq, Eq)]
pub struct WallObject {
    pub id: String,
    pub img: Img,
}

#[derive(Debug, PartialEq, Eq)]
pub struct CharaTemplateObject {
    pub id: String,
    pub img: Img,
    pub race: String,
    pub gen_weight: u32,
    pub gen_level: u32,
    pub max_hp: i32,
    pub str: u16,
    pub vit: u16,
    pub dex: u16,
    pub int: u16,
    pub wil: u16,
    pub cha: u16,
    pub spd: u16,
}

#[derive(Debug, PartialEq, Eq)]
pub struct AnimImgObject {
    pub id: String,
    pub img: Img,
    pub duration: u32,
    pub n_frame: u32,
}

/// One section of a talk script, ready for play.
#[derive(Debug, PartialEq, Eq)]
pub struct TalkSection {
    pub text: Option<String>,
    pub reaction: String,
    pub sub_reaction: Vec<String>,
}

#[derive(Debug, PartialEq, Eq)]
pub struct TalkScriptObject {
    pub id: String,
    pub sections: Vec<(String, TalkSection)>,
}

#[derive(Debug, PartialEq, Eq)]
pub enum Object {
    AnimImg(AnimImgObject),
    CharaTemplate(CharaTemplateObject),
    Deco(DecoObject),
    Item(ItemObject),
    SpecialTile(SpecialTileObject),
    Tile(TileObject),
    UIImg(UIImgObject),
    Wall(WallObject),
    TalkScript(TalkScriptObject),
}

/// Why a description could not be made into an object.
#[derive(Debug, PartialEq, Eq)]
pub enum PakCompileError {
    MissingField { field_name: String },
    UnexpectedValue { field_name: String, value: String },
    UnknownObjectType,
}

/// A failure with its texts as sequences of characters.
pub enum Failure {
    MissingField(Seq<char>),
    UnexpectedValue(Seq<char>, Seq<char>),
    UnknownObjectType,
}

impl View for PakCompileError {
    type V = Failure;

    open spec fn view(&self) -> Failure {
        match self {
            PakCompileError::MissingField { field_name } => Failure::MissingField(field_name@),
            PakCompileError::UnexpectedValue { field_name, value } => Failure::UnexpectedValue(
                field_name@,
                value@,
            ),
            PakCompileError::UnknownObjectType => Failure::UnknownObjectType,
        }
    }
}

/// The failure for a part that the description lacks.
fn missing(field_name: &str) -> (e: PakCompileError)
    ensures
        e@ == Failure::MissingField(field_name@),
{
    PakCompileError::MissingField { field_name: field_name.to_string() }
}

/// Whether `s` reads as `word`.
fn reads(s: &String, word: &str) -> (b: bool)
    ensures
        b == (s@ == word@),
{
    *s == word.to_string()
}

/// The kind that an item description names, or why it names none.
pub open spec fn item_kind_of(item: ItemDepInput) -> Result<ItemKind, Failure> {
    let name = item.item_kind@;
    if name == "object"@ {
        Ok(ItemKind::Object)
    } else if name == "potion"@ {
        Ok(ItemKind::Potion)
    } else if name == "food"@ {
        Ok(ItemKind::Food)
    } else if name == "magic_device"@ {
        Ok(ItemKind::MagicDevice)
    } else if name == "weapon"@ {
        match item.weapon_kind {
            Some(k) => Ok(ItemKind::Weapon(k)),
            None => Err(Failure::MissingField("weapon_kind"@)),
        }
    } else if name == "armor"@ {
        match item.armor_kind {
            Some(k) => Ok(ItemKind::Armor(k)),
            None => Err(Failure::MissingField("armor_kind"@)),
        }
    } else if name == "tool"@ {
        Ok(ItemKind::Tool)
    } else if name == "material"@ {
        Ok(ItemKind::Material)
    } else if name == "special"@ {
        Ok(ItemKind::Special)
    } else {
        Err(Failure::UnexpectedValue("item_kind"@, name))
    }
}

/// What can be done with every item of a kind: food is eaten, a potion is drunk.
pub open spec fn flags_of(kind: ItemKind) -> ItemFlags {
    ItemFlags { eatable: kind == ItemKind::Food, drinkable: kind == ItemKind::Potion }
}

/// Why no item can be built from a description, if none can: the first of image, item part
/// and kind that is missing or wrong.
pub open spec fn item_failure(t: TomlInput) -> Option<Failure> {
    if t.image.is_none() {
        Some(Failure::MissingField("image"@))
    } else if t.item.is_none() {
        Some(Failure::MissingField("item"@))
    } else {
        match item_kind_of(t.item.unwrap()) {
            Ok(_) => None,
            Err(f) => Some(f),
        }
    }
}

/// The kind that an item description names.
fn item_kind(item: &ItemDepInput) -> (r: Result<ItemKind, PakCompileError>)
    ensures
        match r {
            Ok(k) => item_kind_of(*item) == Ok::<ItemKind, Failure>(k),
            Err(e) => item_kind_of(*item) == Err::<ItemKind, Failure>(e@),
        },
{
    if reads(&item.item_kind, "object") {
        Ok(ItemKind::Object)
    } else if reads(&item.item_kind, "potion") {
        Ok(ItemKind::Potion)
    } else if reads(&item.item_kind, "food") {
        Ok(ItemKind::Food)
    } else if reads(&item.item_kind, "magic_device") {
        Ok(ItemKind::MagicDevice)
    } else if reads(&item.item_kind, "weapon") {
        match item.weapon_kind {
            Some(k) => Ok(ItemKind::Weapon(k)),
            None => Err(missing("weapon_kind")),
        }
    } else if reads(&item.item_kind, "armor") {
        match item.armor_kind {
            Some(k) => Ok(ItemKind::Armor(k)),
            None => Err(missing("armor_kind")),
        }
    } else if reads(&item.item_kind, "tool") {
        Ok(ItemKind::Tool)
    } else if reads(&item.item_kind, "material") {
        Ok(ItemKind::Material)
    } else if reads(&item.item_kind, "special") {
        Ok(ItemKind::Special)
    } else {
        Err(
            PakCompileError::UnexpectedValue {
                field_name: "item_kind".to_string(),
                value: item.item_kind.clone(),
            },
        )
    }
}

/// Whether `o` is the item that the description `t` gives.
pub open spec fn item_built(t: TomlInput, o: ItemObject) -> bool {
    let item = t.item.unwrap();
    &&& item_kind_of(item) == Ok::<ItemKind, Failure>(o.kind)
    &&& o.default_flags == flags_of(o.kind)
    &&& o.id == t.id
    &&& o.img == t.image.unwrap()
    &&& o.group == item.group
    &&& o.basic_price == item.basic_price
    &&& o.w == item.w
    &&& o.gen_weight == item.gen_weight
    &&& o.shop_weight == item.shop_weight.unwrap_or(item.gen_weight)
    &&& o.gen_level == item.gen_level
    &&& o.dice_n == item.dice_n.unwrap_or(0)
    &&& o.dice_x == item.dice_x.unwrap_or(0)
    &&& item.def.is_some() ==> o.def == item.def.unwrap()
    &&& item.def.is_none() ==> forall|i: int| 0 <= i < 6 ==> o.def.0@[i] == 0
    &&& o.eff == item.eff.unwrap_or(0)
    &&& o.magical_effect == item.magical_effect
    &&& o.medical_effect == item.medical_effect
    &&& o.tool_effect == item.tool_effect
    &&& o.use_effect == item.use_effect
    &&& o.nutrition == item.nutrition.unwrap_or(0)
    &&& o.charge == item.charge
    &&& o.harvest == item.harvest
    &&& o.facility == item.facility
}

/// Builds an item from its description. Numbers that the description leaves out are zero,
/// and the weight in shops is the weight in the wild.
pub fn build_item_object(tomlinput: TomlInput) -> (r: Result<ItemObject, PakCompileError>)
    ensures
        match r {
            Ok(o) => item_failure(tomlinput).is_none() && item_built(tomlinput, o),
            Err(e) => item_failure(tomlinput) == Some(e@),
        },
{
    let img = match tomlinput.image {
        Some(img) => img,
        None => {
            return Err(missing("image"));
        },
    };
    let item = match tomlinput.item {
        Some(item) => item,
        None => {
            return Err(missing("item"));
        },
    };
    let kind = match item_kind(&item) {
        Ok(kind) => kind,
        Err(e) => {
            return Err(e);
        },
    };
    let flags = match kind {
        ItemKind::Potion => ItemFlags { eatable: false, drinkable: true },
        ItemKind::Food => ItemFlags { eatable: true, drinkable: false },
        _ => ItemFlags { eatable: false, drinkable: false },
    };
    Ok(
        ItemObject {
            id: tomlinput.id,
            img,
            default_flags: flags,
            kind,
            group: item.group,
            basic_price: item.basic_price,
            w: item.w,
            gen_weight: item.gen_weight,
            shop_weight: item.shop_weight.unwrap_or(item.gen_weight),
            gen_level: item.gen_level,
            dice_n: item.dice_n.unwrap_or(0),
            dice_x: item.dice_x.unwrap_or(0),
            def: item.def.unwrap_or(ElementArray([0, 0, 0, 0, 0, 0])),
            eff: item.eff.unwrap_or(0),
            magical_effect: item.magical_effect,
            medical_effect: item.medical_effect,
            tool_effect: item.tool_effect,
            use_effect: item.use_effect,
            nutrition: item.nutrition.unwrap_or(0),
            charge: item.charge,
            harvest: item.harvest,
            facility: item.facility,
        },
    )
}

/// Why no object that needs only an image can be built from a description, if none can.
pub open spec fn image_failure(t: TomlInput) -> Option<Failure> {
    if t.image.is_none() {
        Some(Failure::MissingField("image"@))
    } else {
        None
    }
}

/// Whether `id` and `img` are the name and the image of the description `t`.
pub open spec fn image_kept(t: TomlInput, id: String, img: Img) -> bool {
    id == t.id && img == t.image.unwrap()
}

/// Builds a decoration from its description.
pub fn build_deco_object(tomlinput: TomlInput) -> (r: Result<DecoObject, PakCompileError>)
    ensures
        match r {
            Ok(o) => image_failure(tomlinput).is_none() && image_kept(tomlinput, o.id, o.img),
            Err(e) => image_failure(tomlinput) == Some(e@),
        },
{
    match tomlinput.image {
        Some(img) => Ok(DecoObject { id: tomlinput.id, img }),
        None => Err(missing("image")),
    }
}

/// Builds a special tile from its description.
pub fn build_special_tile_object(tomlinput: TomlInput) -> (r: Result<
    SpecialTileObject,
    PakCompileError,
>)
    ensures
        match r {
            Ok(o) => image_failure(tomlinput).is_none() && image_kept(tomlinput, o.id, o.img),
            Err(e) => image_failure(tomlinput) == Some(e@),
        },
{
    match tomlinput.image {
        Some(img) => Ok(SpecialTileObject { id: tomlinput.id, img }),
        None => Err(missing("image")),
    }
}

/// Builds an image of the user interface from its description.
pub fn build_ui_img_object(tomlinput: TomlInput) -> (r: Result<UIImgObject, PakCompileError>)
    ensures
        match r {
            Ok(o) => image_failure(tomlinput).is_none() && image_kept(tomlinput, o.id, o.img),
            Err(e) => image_failure(tomlinput) == Some(e@),
        },
{
    match tomlinput.image {
        Some(img) => Ok(UIImgObject { id: tomlinput.id, img }),
        None => Err(missing("image")),
    }
}

/// Builds a wall from its description.
pub fn build_wall_object(tomlinput: TomlInput) -> (r: Result<WallObject, PakCompileError>)
    ensures
        match r {
            Ok(o) => image_failure(tomlinput).is_none() && image_kept(tomlinput, o.id, o.img),
            Err(e) => image_failure(tomlinput) == Some(e@),
        },
{
    match tomlinput.image {
        Some(img) => Ok(WallObject { id: tomlinput.id, img }),
        None => Err(missing("image")),
    }
}

/// Why no tile can be built from a description, if none can: the tile part is looked for
/// before the image.
pub open spec fn tile_failure(t: TomlInput) -> Option<Failure> {
    if t.tile.is_none() {
        Some(Failure::MissingField("tile"@))
    } else {
        image_failure(t)
    }
}

/// Whether `o` is the tile that the description `t` gives.
pub open spec fn tile_built(t: TomlInput, o: TileObject) -> bool {
    image_kept(t, o.id, o.img) && o.kind == t.tile.unwrap().kind
}

/// Builds a tile from its description.
pub fn build_tile_object(tomlinput: TomlInput) -> (r: Result<TileObject, PakCompileError>)
    ensures
        match r {
            Ok(o) => tile_failure(tomlinput).is_none() && tile_built(tomlinput, o),
            Err(e) => tile_failure(tomlinput) == Some(e@),
        },
{
    let tile = match tomlinput.tile {
        Some(tile) => tile,
        None => {
            return Err(missing("tile"));
        },
    };
    match tomlinput.image {
        Some(img) => Ok(TileObject { id: tomlinput.id, img, kind: tile.kind }),
        None => Err(missing("image")),
    }
}

/// Why no character template can be built from a description, if none can.
pub open spec fn chara_template_failure(t: TomlInput) -> Option<Failure> {
    if t.chara_template.is_none() {
        Some(Failure::MissingField("chara_template"@))
    } else {
        image_failure(t)
    }
}

/// Whether `o` is the character template that the description `t` gives.
pub open spec fn chara_template_built(t: TomlInput, o: CharaTemplateObject) -> bool {
    let c = t.chara_template.unwrap();
    &&& image_kept(t, o.id, o.img)
    &&& o.race == c.race
    &&& o.gen_weight == c.gen_weight
    &&& o.gen_level == c.gen_level
    &&& o.max_hp == c.max_hp
    &&& o.str == c.str
    &&& o.vit == c.vit
    &&& o.dex == c.dex
    &&& o.int == c.int
    &&& o.wil == c.wil
    &&& o.cha == c.cha
    &&& o.spd == c.spd
}

/// Builds a character template from its description.
pub fn build_chara_template_object(tomlinput: TomlInput) -> (r: Result<
    CharaTemplateObject,
    PakCompileError,
>)
    ensures
        match r {
            Ok(o) => chara_template_failure(tomlinput).is_none() && chara_template_built(
                tomlinput,
                o,
            ),
            Err(e) => chara_template_failure(tomlinput) == Some(e@),
        },
{
    let chara_dep_input = match tomlinput.chara_template {
        Some(c) => c,
        None => {
            return Err(missing("chara_template"));
        },
    };
    let img = match tomlinput.image {
        Some(img) => img,
        None => {
            return Err(missing("image"));
        },
    };
    Ok(
        CharaTemplateObject {
            id: tomlinput.id,
            img,
            race: chara_dep_input.race,
            gen_weight: chara_dep_input.gen_weight,
            gen_level: chara_dep_input.gen_level,
            max_hp: chara_dep_input.max_hp,
            str: chara_dep_input.str,
            vit: chara_dep_input.vit,
            dex: chara_dep_input.dex,
            int: chara_dep_input.int,
            wil: chara_dep_input.wil,
            cha: chara_dep_input.cha,
            spd: chara_dep_input.spd,
        },
    )
}

/// Why no animation can be built from a description, if none can.
pub open spec fn anim_img_failure(t: TomlInput) -> Option<Failure> {
    if t.anim_img.is_none() {
        Some(Failure::MissingField("anim_img"@))
    } else {
        image_failure(t)
    }
}

/// Whether `o` is the animation that the description `t` gives.
pub open spec fn anim_img_built(t: TomlInput, o: AnimImgObject) -> bool {
    &&& image_kept(t, o.id, o.img)
    &&& o.duration == t.anim_img.unwrap().duration
    &&& o.n_frame == t.anim_img.unwrap().n_frame
}

/// Builds an animation from its description.
pub fn build_anim_img_object(tomlinput: TomlInput) -> (r: Result<AnimImgObject, PakCompileError>)
    ensures
        match r {
            Ok(o) => anim_img_failure(tomlinput).is_none() && anim_img_built(tomlinput, o),
            Err(e) => anim_img_failure(tomlinput) == Some(e@),
        },
{
    let anim_img_dep = match tomlinput.anim_img {
        Some(a) => a,
        None => {
            return Err(missing("anim_img"));
        },
    };
    match tomlinput.image {
        Some(img) => Ok(
            AnimImgObject {
                id: tomlinput.id,
                img,
                duration: anim_img_dep.duration,
                n_frame: anim_img_dep.n_frame,
            },
        ),
        None => Err(missing("image")),
    }
}

/// Whether a section gets the text that is named after the script and the section: it names
/// no text of its own and is not said to be one with text.
pub open spec fn takes_default_text(v: TalkSectionInput) -> bool {
    v.text.is_none() && (v.is_empty.is_none() || v.is_empty.unwrap())
}

/// The name of the text that a section gets where it names none.
pub open spec fn default_text_id(script: Seq<char>, section: Seq<char>) -> Seq<char> {
    script + seq!['.'] + section
}

/// Whether `out` is the section named `key` of the script `script`, built from `v`.
pub open spec fn section_built(
    script: Seq<char>,
    key: Seq<char>,
    v: TalkSectionInput,
    out: TalkSection,
) -> bool {
    &&& if takes_default_text(v) {
        out.text.is_some() && out.text.unwrap()@ == default_text_id(script, key)
    } else {
        out.text == v.text
    }
    &&& out.reaction == v.reaction
    &&& match v.sub_reaction {
        Some(s) => out.sub_reaction == s,
        None => out.sub_reaction@ == Seq::<String>::empty(),
    }
}

/// `std::format!`: the two texts with a dot between them.
#[verifier::external_body]
fn dotted(script: &str, section: &str) -> (r: String)
    ensures
        r@ == default_text_id(script@, section@),
{
    format!("{}.{}", script, section)
}

/// Builds one section of the script named `script`.
fn build_talk_section(script: &String, key: &String, v: TalkSectionInput) -> (out: TalkSection)
    ensures
        section_built(script@, key@, v, out),
{
    let text = if v.text.is_none() && (v.is_empty.is_none() || v.is_empty.unwrap()) {
        Some(dotted(script.as_str(), key.as_str()))
    } else {
        v.text
    };
    let sub_reaction = match v.sub_reaction {
        Some(sub_reaction) => sub_reaction,
        None => Vec::new(),
    };
    TalkSection { text, reaction: v.reaction, sub_reaction }
}

/// Why no talk script can be built from a description, if none can.
pub open spec fn talk_script_failure(t: TomlInput) -> Option<Failure> {
    if t.talk_script.is_none() {
        Some(Failure::MissingField("talk_script"@))
    } else {
        None
    }
}

/// Whether `o` is the talk script that the description `t` gives.
pub open spec fn talk_script_built(t: TomlInput, o: TalkScriptObject) -> bool {
    let given = t.talk_script.unwrap().sections@;
    &&& o.id == t.id
    &&& o.sections@.len() == given.len()
    &&& forall|i: int|
        0 <= i < given.len() ==> (#[trigger] o.sections@[i]).0 == given[i].0 && section_built(
            t.id@,
            given[i].0@,
            given[i].1,
            o.sections@[i].1,
        )
}

/// Builds a talk script from its description: every section is kept under its name, in the
/// order in which the description gives them.
pub fn build_talk_script_object(tomlinput: TomlInput) -> (r: Result<
    TalkScriptObject,
    PakCompileError,
>)
    ensures
        match r {
            Ok(o) => talk_script_failure(tomlinput).is_none() && talk_script_built(tomlinput, o),
            Err(e) => talk_script_failure(tomlinput) == Some(e@),
        },
{
    let talk_script_dep = match tomlinput.talk_script {
        Some(t) => t,
        None => {
            return Err(missing("talk_script"));
        },
    };
    let ghost given = talk_script_dep.sections@;
    let mut rest = talk_script_dep.sections;
    let mut sections: Vec<(String, TalkSection)> = Vec::new();
    while rest.len() > 0
        invariant
            sections@.len() + rest@.len() == given.len(),
            rest@ == given.subrange(sections@.len() as int, given.len() as int),
            forall|i: int|
                0 <= i < sections@.len() ==> (#[trigger] sections@[i]).0 == given[i].0
                    && section_built(tomlinput.id@, given[i].0@, given[i].1, sections@[i].1),
        decreases rest@.len(),
    {
        let (k, v) = rest.remove(0);
        let section = build_talk_section(&tomlinput.id, &k, v);
        sections.push((k, section));
        assert(rest@ =~= given.subrange(sections@.len() as int, given.len() as int));
    }
    Ok(TalkScriptObject { id: tomlinput.id, sections })
}

/// Why no object can be built from a description, if none can: its type is unknown, or the
/// builder for its type fails.
pub open spec fn object_failure(t: TomlInput) -> Option<Failure> {
    let ty = t.object_type@;
    if ty == "anim_img"@ {
        anim_img_failure(t)
    } else if ty == "chara_template"@ {
        chara_template_failure(t)
    } else if ty == "deco"@ {
        image_failure(t)
    } else if ty == "item"@ {
        item_failure(t)
    } else if ty == "special_tile"@ {
        image_failure(t)
    } else if ty == "tile"@ {
        tile_failure(t)
    } else if ty == "ui_img"@ {
        image_failure(t)
    } else if ty == "wall"@ {
        image_failure(t)
    } else if ty == "talk_script"@ {
        talk_script_failure(t)
    } else {
        Some(Failure::UnknownObjectType)
    }
}

/// Whether `o` is the object that the description `t` gives: of the sort that its type name
/// asks for, and built as the builder of that sort builds it.
pub open spec fn object_built(t: TomlInput, o: Object) -> bool {
    let ty = t.object_type@;
    if ty == "anim_img"@ {
        o is AnimImg && anim_img_built(t, o->AnimImg_0)
    } else if ty == "chara_template"@ {
        o is CharaTemplate && chara_template_built(t, o->CharaTemplate_0)
    } else if ty == "deco"@ {
        o is Deco && image_kept(t, o->Deco_0.id, o->Deco_0.img)
    } else if ty == "item"@ {
        o is Item && item_built(t, o->Item_0)
    } else if ty == "special_tile"@ {
        o is SpecialTile && image_kept(t, o->SpecialTile_0.id, o->SpecialTile_0.img)
    } else if ty == "tile"@ {
        o is Tile && tile_built(t, o->Tile_0)
    } else if ty == "ui_img"@ {
        o is UIImg && image_kept(t, o->UIImg_0.id, o->UIImg_0.img)
    } else if ty == "wall"@ {
        o is Wall && image_kept(t, o->Wall_0.id, o->Wall_0.img)
    } else {
        ty == "talk_script"@ && o is TalkScript && talk_script_built(t, o->TalkScript_0)
    }
}

/// Builds the object that a description asks for by its type name.
pub fn build_object(tomlinput: TomlInput) -> (r: Result<Object, PakCompileError>)
    ensures
        match r {
            Ok(o) => object_failure(tomlinput).is_none() && object_built(tomlinput, o),
            Err(e) => object_failure(tomlinput) == Some(e@),
        },
{
    if reads(&tomlinput.object_type, "anim_img") {
        match build_anim_img_object(tomlinput) {
            Ok(o) => Ok(Object::AnimImg(o)),
            Err(e) => Err(e),
        }
    } else if reads(&tomlinput.object_type, "chara_template") {
        match build_chara_template_object(tomlinput) {
            Ok(o) => Ok(Object::CharaTemplate(o)),
            Err(e) => Err(e),
        }
    } else if reads(&tomlinput.object_type, "deco") {
        match build_deco_object(tomlinput) {
            Ok(o) => Ok(Object::Deco(o)),
            Err(e) => Err(e),
        }
    } else if reads(&tomlinput.object_type, "item") {
        match build_item_object(tomlinput) {
            Ok(o) => Ok(Object::Item(o)),
            Err(e) => Err(e),
        }
    } else if reads(&tomlinput.object_type, "special_tile") {
        match build_special_tile_object(tomlinput) {
            Ok(o) => Ok(Object::SpecialTile(o)),
            Err(e) => Err(e),
        }
    } else if reads(&tomlinput.object_type, "tile") {
        match build_tile_object(tomlinput) {
            Ok(o) => Ok(Object::Tile(o)),
            Err(e) => Err(e),
        }
    } else if reads(&tomlinput.object_type, "ui_img") {
        match build_ui_img_object(tomlinput) {
            Ok(o) => Ok(Object::UIImg(o)),
            Err(e) => Err(e),
        }
    } else if reads(&tomlinput.object_type, "wall") {
        match build_wall_object(tomlinput) {
            Ok(o) => Ok(Object::Wall(o)),
            Err(e) => Err(e),
        }
    } else if reads(&tomlinput.object_type, "talk_script") {
        match build_talk_script_object(tomlinput) {
            Ok(o) => Ok(Object::TalkScript(o)),
            Err(e) => Err(e),
        }
    } else {
        Err(PakCompileError::UnknownObjectType)
    }
}

} // verus!
