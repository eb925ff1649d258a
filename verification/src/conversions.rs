//! Conversions between the values that cross the plugin interface and the
//! server's own values: sign colours and text, boss bar settings, display
//! entity modes and data pack descriptions.

use vstd::prelude::*;

verus! {

/// Dye colour of a sign, as plugins see it.
#[derive(Clone, Copy, Debug, PartialEq, Eq, Structural)]
pub enum DyeColor {
    White,
    Orange,
    Magenta,
    LightBlue,
    Yellow,
    Lime,
    Pink,
    Gray,
    LightGray,
    Cyan,
    Purple,
    Blue,
    Brown,
    Green,
    Red,
    Black,
}

/// Dye colour of a sign, as the server keeps it.
#[derive(Clone, Copy, Debug, PartialEq, Eq, Structural)]
pub enum SignDyeColor {
    White,
    Orange,
    Magenta,
    LightBlue,
    Yellow,
    Lime,
    Pink,
    Gray,
    LightGray,
    Cyan,
    Purple,
    Blue,
    Brown,
    Green,
    Red,
    Black,
}

/// The server's dye colour for a plugin's.
pub open spec fn spec_from_wasm_dye_color(v: DyeColor) -> SignDyeColor {
    match v {
        DyeColor::White => SignDyeColor::White,
        DyeColor::Orange => SignDyeColor::Orange,
        DyeColor::Magenta => SignDyeColor::Magenta,
        DyeColor::LightBlue => SignDyeColor::LightBlue,
        DyeColor::Yellow => SignDyeColor::Yellow,
        DyeColor::Lime => SignDyeColor::Lime,
        DyeColor::Pink => SignDyeColor::Pink,
        DyeColor::Gray => SignDyeColor::Gray,
        DyeColor::LightGray => SignDyeColor::LightGray,
        DyeColor::Cyan => SignDyeColor::Cyan,
        DyeColor::Purple => SignDyeColor::Purple,
        DyeColor::Blue => SignDyeColor::Blue,
        DyeColor::Brown => SignDyeColor::Brown,
        DyeColor::Green => SignDyeColor::Green,
        DyeColor::Red => SignDyeColor::Red,
        DyeColor::Black => SignDyeColor::Black,
    }
}

/// The server's dye colour for a plugin's.
pub fn from_wasm_dye_color(v: DyeColor) -> (res: SignDyeColor)
    ensures
        res == spec_from_wasm_dye_color(v),
{
    match v {
        DyeColor::White => SignDyeColor::White,
        DyeColor::Orange => SignDyeColor::Orange,
        DyeColor::Magenta => SignDyeColor::Magenta,
        DyeColor::LightBlue => SignDyeColor::LightBlue,
        DyeColor::Yellow => SignDyeColor::Yellow,
        DyeColor::Lime => SignDyeColor::Lime,
        DyeColor::Pink => SignDyeColor::Pink,
        DyeColor::Gray => SignDyeColor::Gray,
        DyeColor::LightGray => SignDyeColor::LightGray,
        DyeColor::Cyan => SignDyeColor::Cyan,
        DyeColor::Purple => SignDyeColor::Purple,
        DyeColor::Blue => SignDyeColor::Blue,
        DyeColor::Brown => SignDyeColor::Brown,
        DyeColor::Green => SignDyeColor::Green,
        DyeColor::Red => SignDyeColor::Red,
        DyeColor::Black => SignDyeColor::Black,
    }
}

/// The plugin's dye colour for the server's.
pub open spec fn spec_to_wasm_dye_color(v: SignDyeColor) -> DyeColor {
    match v {
        SignDyeColor::White => DyeColor::White,
        SignDyeColor::Orange => DyeColor::Orange,
        SignDyeColor::Magenta => DyeColor::Magenta,
        SignDyeColor::LightBlue => DyeColor::LightBlue,
        SignDyeColor::Yellow => DyeColor::Yellow,
        SignDyeColor::Lime => DyeColor::Lime,
        SignDyeColor::Pink => DyeColor::Pink,
        SignDyeColor::Gray => DyeColor::Gray,
        SignDyeColor::LightGray => DyeColor::LightGray,
        SignDyeColor::Cyan => DyeColor::Cyan,
        SignDyeColor::Purple => DyeColor::Purple,
        SignDyeColor::Blue => DyeColor::Blue,
        SignDyeColor::Brown => DyeColor::Brown,
        SignDyeColor::Green => DyeColor::Green,
        SignDyeColor::Red => DyeColor::Red,
        SignDyeColor::Black => DyeColor::Black,
    }
}

/// The plugin's dye colour for the server's.
pub fn to_wasm_dye_color(v: SignDyeColor) -> (res: DyeColor)
    ensures
        res == spec_to_wasm_dye_color(v),
{
    match v {
        SignDyeColor::White => DyeColor::White,
        SignDyeColor::Orange => DyeColor::Orange,
        SignDyeColor::Magenta => DyeColor::Magenta,
        SignDyeColor::LightBlue => DyeColor::LightBlue,
        SignDyeColor::Yellow => DyeColor::Yellow,
        SignDyeColor::Lime => DyeColor::Lime,
        SignDyeColor::Pink => DyeColor::Pink,
        SignDyeColor::Gray => DyeColor::Gray,
        SignDyeColor::LightGray => DyeColor::LightGray,
        SignDyeColor::Cyan => DyeColor::Cyan,
        SignDyeColor::Purple => DyeColor::Purple,
        SignDyeColor::Blue => DyeColor::Blue,
        SignDyeColor::Brown => DyeColor::Brown,
        SignDyeColor::Green => DyeColor::Green,
        SignDyeColor::Red => DyeColor::Red,
        SignDyeColor::Black => DyeColor::Black,
    }
}

/// Dye colours convert both ways without loss.
pub proof fn lemma_dye_color_round_trip(a: DyeColor, b: SignDyeColor)
    ensures
        spec_to_wasm_dye_color(spec_from_wasm_dye_color(a)) == a,
        spec_from_wasm_dye_color(spec_to_wasm_dye_color(b)) == b,
{
}

/// Colour of a boss bar, as plugins see it.
#[derive(Clone, Copy, Debug, PartialEq, Eq, Structural)]
pub enum BossBarColor {
    Pink,
    Blue,
    Red,
    Green,
    Yellow,
    Purple,
    White,
}

/// Colour of a boss bar, as the server keeps it.
#[derive(Clone, Copy, Debug, PartialEq, Eq, Structural)]
pub enum BossbarColor {
    Pink,
    Blue,
    Red,
    Green,
    Yellow,
    Purple,
    White,
}

/// The plugin's boss bar colour for the server's.
pub open spec fn spec_to_wit_color(v: BossbarColor) -> BossBarColor {
    match v {
        BossbarColor::Pink => BossBarColor::Pink,
        BossbarColor::Blue => BossBarColor::Blue,
        BossbarColor::Red => BossBarColor::Red,
        BossbarColor::Green => BossBarColor::Green,
        BossbarColor::Yellow => BossBarColor::Yellow,
        BossbarColor::Purple => BossBarColor::Purple,
        BossbarColor::White => BossBarColor::White,
    }
}

/// The plugin's boss bar colour for the server's.
pub fn to_wit_color(v: BossbarColor) -> (res: BossBarColor)
    ensures
        res == spec_to_wit_color(v),
{
    match v {
        BossbarColor::Pink => BossBarColor::Pink,
        BossbarColor::Blue => BossBarColor::Blue,
        BossbarColor::Red => BossBarColor::Red,
        BossbarColor::Green => BossBarColor::Green,
        BossbarColor::Yellow => BossBarColor::Yellow,
        BossbarColor::Purple => BossBarColor::Purple,
        BossbarColor::White => BossBarColor::White,
    }
}

/// The server's boss bar colour for a plugin's.
pub open spec fn spec_from_wit_color(v: BossBarColor) -> BossbarColor {
    match v {
        BossBarColor::Pink => BossbarColor::Pink,
        BossBarColor::Blue => BossbarColor::Blue,
        BossBarColor::Red => BossbarColor::Red,
        BossBarColor::Green => BossbarColor::Green,
        BossBarColor::Yellow => BossbarColor::Yellow,
        BossBarColor::Purple => BossbarColor::Purple,
        BossBarColor::White => BossbarColor::White,
    }
}

/// The server's boss bar colour for a plugin's.
pub fn from_wit_color(v: BossBarColor) -> (res: BossbarColor)
    ensures
        res == spec_from_wit_color(v),
{
    match v {
        BossBarColor::Pink => BossbarColor::Pink,
        BossBarColor::Blue => BossbarColor::Blue,
        BossBarColor::Red => BossbarColor::Red,
        BossBarColor::Green => BossbarColor::Green,
        BossBarColor::Yellow => BossbarColor::Yellow,
        BossBarColor::Purple => BossbarColor::Purple,
        BossBarColor::White => BossbarColor::White,
    }
}

/// Boss bar colours convert both ways without loss.
pub proof fn lemma_boss_bar_color_round_trip(a: BossbarColor, b: BossBarColor)
    ensures
        spec_from_wit_color(spec_to_wit_color(a)) == a,
        spec_to_wit_color(spec_from_wit_color(b)) == b,
{
}

/// Notches of a boss bar, as plugins see them.
#[derive(Clone, Copy, Debug, PartialEq, Eq, Structural)]
pub enum BossBarDivision {
    NoDivision,
    Notches6,
    Notches10,
    Notches12,
    Notches20,
}

/// Notches of a boss bar, as the server keeps them.
#[derive(Clone, Copy, Debug, PartialEq, Eq, Structural)]
pub enum BossbarDivisions {
    NoDivision,
    Notches6,
    Notches10,
    Notches12,
    Notches20,
}

/// The plugin's boss bar notches for the server's.
pub open spec fn spec_to_wit_division(v: BossbarDivisions) -> BossBarDivision {
    match v {
        BossbarDivisions::NoDivision => BossBarDivision::NoDivision,
        BossbarDivisions::Notches6 => BossBarDivision::Notches6,
        BossbarDivisions::Notches10 => BossBarDivision::Notches10,
        BossbarDivisions::Notches12 => BossBarDivision::Notches12,
        BossbarDivisions::Notches20 => BossBarDivision::Notches20,
    }
}

/// The plugin's boss bar notches for the server's.
pub fn to_wit_division(v: BossbarDivisions) -> (res: BossBarDivision)
    ensures
        res == spec_to_wit_division(v),
{
    match v {
        BossbarDivisions::NoDivision => BossBarDivision::NoDivision,
        BossbarDivisions::Notches6 => BossBarDivision::Notches6,
        BossbarDivisions::Notches10 => BossBarDivision::Notches10,
        BossbarDivisions::Notches12 => BossBarDivision::Notches12,
        BossbarDivisions::Notches20 => BossBarDivision::Notches20,
    }
}

/// The server's boss bar notches for a plugin's.
pub open spec fn spec_from_wit_division(v: BossBarDivision) -> BossbarDivisions {
    match v {
        BossBarDivision::NoDivision => BossbarDivisions::NoDivision,
        BossBarDivision::Notches6 => BossbarDivisions::Notches6,
        BossBarDivision::Notches10 => BossbarDivisions::Notches10,
        BossBarDivision::Notches12 => BossbarDivisions::Notches12,
        BossBarDivision::Notches20 => BossbarDivisions::Notches20,
    }
}

/// The server's boss bar notches for a plugin's.
pub fn from_wit_division(v: BossBarDivision) -> (res: BossbarDivisions)
    ensures
        res == spec_from_wit_division(v),
{
    match v {
        BossBarDivision::NoDivision => BossbarDivisions::NoDivision,
        BossBarDivision::Notches6 => BossbarDivisions::Notches6,
        BossBarDivision::Notches10 => BossbarDivisions::Notches10,
        BossBarDivision::Notches12 => BossbarDivisions::Notches12,
        BossBarDivision::Notches20 => BossbarDivisions::Notches20,
    }
}

/// Boss bar notches convert both ways without loss.
pub proof fn lemma_boss_bar_division_round_trip(a: BossbarDivisions, b: BossBarDivision)
    ensures
        spec_from_wit_division(spec_to_wit_division(a)) == a,
        spec_to_wit_division(spec_from_wit_division(b)) == b,
{
}

/// How a display entity turns towards the viewer.
#[derive(Clone, Copy, Debug, PartialEq, Eq, Structural)]
pub enum BillboardMode {
    Fixed,
    Vertical,
    Horizontal,
    Center,
}

/// How an item display entity renders its item.
#[derive(Clone, Copy, Debug, PartialEq, Eq, Structural)]
pub enum ItemDisplayMode {
    NoTransform,
    ThirdpersonLefthand,
    ThirdpersonRighthand,
    FirstpersonLefthand,
    FirstpersonRighthand,
    Head,
    Gui,
    Ground,
    Fixed,
}

/// Alignment of the text of a text display entity.
#[derive(Clone, Copy, Debug, PartialEq, Eq, Structural)]
pub enum TextAlignment {
    Center,
    Left,
    Right,
}

/// Billboard mode for its code in the entity data; unknown codes give `Fixed`.
pub open spec fn spec_map_billboard_mode(mode: u8) -> BillboardMode {
    match mode {
        1 => BillboardMode::Vertical,
        2 => BillboardMode::Horizontal,
        3 => BillboardMode::Center,
        _ => BillboardMode::Fixed,
    }
}

/// Billboard mode for its code in the entity data; unknown codes give `Fixed`.
pub fn map_billboard_mode(mode: u8) -> (res: BillboardMode)
    ensures
        res == spec_map_billboard_mode(mode),
{
    match mode {
        1 => BillboardMode::Vertical,
        2 => BillboardMode::Horizontal,
        3 => BillboardMode::Center,
        _ => BillboardMode::Fixed,
    }
}

/// Code of the mode in the entity data.
pub open spec fn spec_map_billboard_mode_rev(mode: BillboardMode) -> u8 {
    match mode {
        BillboardMode::Fixed => 0,
        BillboardMode::Vertical => 1,
        BillboardMode::Horizontal => 2,
        BillboardMode::Center => 3,
    }
}

/// Code of the mode in the entity data.
pub fn map_billboard_mode_rev(mode: BillboardMode) -> (res: u8)
    ensures
        res == spec_map_billboard_mode_rev(mode),
{
    match mode {
        BillboardMode::Fixed => 0,
        BillboardMode::Vertical => 1,
        BillboardMode::Horizontal => 2,
        BillboardMode::Center => 3,
    }
}

/// Codes and modes convert both ways: every mode has a code below 4 that
/// reads back as that mode, and every such code is the code of the mode it reads as.
pub proof fn lemma_map_billboard_mode_round_trip(mode: BillboardMode, code: u8)
    ensures
        spec_map_billboard_mode(spec_map_billboard_mode_rev(mode)) == mode,
        spec_map_billboard_mode_rev(mode) <= 3,
        code <= 3 ==> spec_map_billboard_mode_rev(spec_map_billboard_mode(code)) == code,
        code > 3 ==> spec_map_billboard_mode(code) == BillboardMode::Fixed,
{
}

/// The billboard modes in the order of their codes in the entity data.
pub open spec fn billboard_modes_by_code() -> Seq<BillboardMode> {
    seq![BillboardMode::Fixed, BillboardMode::Vertical, BillboardMode::Horizontal, BillboardMode::Center]
}

/// A mode's code is its place in the code order, and a code within that
/// order reads as the mode in its place.
pub proof fn lemma_billboard_codes_follow_order(mode: BillboardMode, code: u8)
    ensures
        billboard_modes_by_code()[spec_map_billboard_mode_rev(mode) as int] == mode,
        code < billboard_modes_by_code().len() ==> spec_map_billboard_mode(code)
            == billboard_modes_by_code()[code as int],
{
}

/// Item display mode for its code in the entity data; unknown codes give `NoTransform`.
pub open spec fn spec_map_item_display_mode(mode: u8) -> ItemDisplayMode {
    match mode {
        1 => ItemDisplayMode::ThirdpersonLefthand,
        2 => ItemDisplayMode::ThirdpersonRighthand,
        3 => ItemDisplayMode::FirstpersonLefthand,
        4 => ItemDisplayMode::FirstpersonRighthand,
        5 => ItemDisplayMode::Head,
        6 => ItemDisplayMode::Gui,
        7 => ItemDisplayMode::Ground,
        8 => ItemDisplayMode::Fixed,
        _ => ItemDisplayMode::NoTransform,
    }
}

/// Item display mode for its code in the entity data; unknown codes give `NoTransform`.
pub fn map_item_display_mode(mode: u8) -> (res: ItemDisplayMode)
    ensures
        res == spec_map_item_display_mode(mode),
{
    match mode {
        1 => ItemDisplayMode::ThirdpersonLefthand,
        2 => ItemDisplayMode::ThirdpersonRighthand,
        3 => ItemDisplayMode::FirstpersonLefthand,
        4 => ItemDisplayMode::FirstpersonRighthand,
        5 => ItemDisplayMode::Head,
        6 => ItemDisplayMode::Gui,
        7 => ItemDisplayMode::Ground,
        8 => ItemDisplayMode::Fixed,
        _ => ItemDisplayMode::NoTransform,
    }
}

/// Code of the mode in the entity data.
pub open spec fn spec_map_item_display_mode_rev(mode: ItemDisplayMode) -> u8 {
    match mode {
        ItemDisplayMode::NoTransform => 0,
        ItemDisplayMode::ThirdpersonLefthand => 1,
        ItemDisplayMode::ThirdpersonRighthand => 2,
        ItemDisplayMode::FirstpersonLefthand => 3,
        ItemDisplayMode::FirstpersonRighthand => 4,
        ItemDisplayMode::Head => 5,
        ItemDisplayMode::Gui => 6,
        ItemDisplayMode::Ground => 7,
        ItemDisplayMode::Fixed => 8,
    }
}

/// Code of the mode in the entity data.
pub fn map_item_display_mode_rev(mode: ItemDisplayMode) -> (res: u8)
    ensures
        res == spec_map_item_display_mode_rev(mode),
{
    match mode {
        ItemDisplayMode::NoTransform => 0,
        ItemDisplayMode::ThirdpersonLefthand => 1,
        ItemDisplayMode::ThirdpersonRighthand => 2,
        ItemDisplayMode::FirstpersonLefthand => 3,
        ItemDisplayMode::FirstpersonRighthand => 4,
        ItemDisplayMode::Head => 5,
        ItemDisplayMode::Gui => 6,
        ItemDisplayMode::Ground => 7,
        ItemDisplayMode::Fixed => 8,
    }
}

/// Codes and modes convert both ways: every mode has a code below 9 that
/// reads back as that mode, and every such code is the code of the mode it reads as.
pub proof fn lemma_map_item_display_mode_round_trip(mode: ItemDisplayMode, code: u8)
    ensures
        spec_map_item_display_mode(spec_map_item_display_mode_rev(mode)) == mode,
        spec_map_item_display_mode_rev(mode) <= 8,
        code <= 8 ==> spec_map_item_display_mode_rev(spec_map_item_display_mode(code)) == code,
        code > 8 ==> spec_map_item_display_mode(code) == ItemDisplayMode::NoTransform,
{
}

/// The item display modes in the order of their codes in the entity data.
pub open spec fn item_display_modes_by_code() -> Seq<ItemDisplayMode> {
    seq![
        ItemDisplayMode::NoTransform,
        ItemDisplayMode::ThirdpersonLefthand,
        ItemDisplayMode::ThirdpersonRighthand,
        ItemDisplayMode::FirstpersonLefthand,
        ItemDisplayMode::FirstpersonRighthand,
        ItemDisplayMode::Head,
        ItemDisplayMode::Gui,
        ItemDisplayMode::Ground,
        ItemDisplayMode::Fixed,
    ]
}

/// A mode's code is its place in the code order, and a code within that
/// order reads as the mode in its place.
pub proof fn lemma_item_display_codes_follow_order(mode: ItemDisplayMode, code: u8)
    ensures
        item_display_modes_by_code()[spec_map_item_display_mode_rev(mode) as int] == mode,
        code < item_display_modes_by_code().len() ==> spec_map_item_display_mode(code)
            == item_display_modes_by_code()[code as int],
{
}

/// Text alignment for its code in the entity data; unknown codes give `Center`.
pub open spec fn spec_map_text_alignment(mode: u8) -> TextAlignment {
    match mode {
        1 => TextAlignment::Left,
        2 => TextAlignment::Right,
        _ => TextAlignment::Center,
    }
}

/// Text alignment for its code in the entity data; unknown codes give `Center`.
pub fn map_text_alignment(mode: u8) -> (res: TextAlignment)
    ensures
        res == spec_map_text_alignment(mode),
{
    match mode {
        1 => TextAlignment::Left,
        2 => TextAlignment::Right,
        _ => TextAlignment::Center,
    }
}

/// Code of the mode in the entity data.
pub open spec fn spec_map_text_alignment_rev(mode: TextAlignment) -> u8 {
    match mode {
        TextAlignment::Center => 0,
        TextAlignment::Left => 1,
        TextAlignment::Right => 2,
    }
}

/// Code of the mode in the entity data.
pub fn map_text_alignment_rev(mode: TextAlignment) -> (res: u8)
    ensures
        res == spec_map_text_alignment_rev(mode),
{
    match mode {
        TextAlignment::Center => 0,
        TextAlignment::Left => 1,
        TextAlignment::Right => 2,
    }
}

/// Codes and modes convert both ways: every mode has a code below 3 that
/// reads back as that mode, and every such code is the code of the mode it reads as.
pub proof fn lemma_map_text_alignment_round_trip(mode: TextAlignment, code: u8)
    ensures
        spec_map_text_alignment(spec_map_text_alignment_rev(mode)) == mode,
        spec_map_text_alignment_rev(mode) <= 2,
        code <= 2 ==> spec_map_text_alignment_rev(spec_map_text_alignment(code)) == code,
        code > 2 ==> spec_map_text_alignment(code) == TextAlignment::Center,
{
}

/// The text alignments in the order of their codes in the entity data.
pub open spec fn text_alignments_by_code() -> Seq<TextAlignment> {
    seq![TextAlignment::Center, TextAlignment::Left, TextAlignment::Right]
}

/// An alignment's code is its place in the code order, and a code within
/// that order reads as the alignment in its place.
pub proof fn lemma_text_alignment_codes_follow_order(mode: TextAlignment, code: u8)
    ensures
        text_alignments_by_code()[spec_map_text_alignment_rev(mode) as int] == mode,
        code < text_alignments_by_code().len() ==> spec_map_text_alignment(code)
            == text_alignments_by_code()[code as int],
{
}

/// Flag of the boss bar flags that darkens the sky.
pub const BOSSBAR_DARKEN_SKY: u8 = 1;

/// Flag of the boss bar flags that plays the end dragon music.
pub const BOSSBAR_DRAGON_BAR: u8 = 2;

/// Flag of the boss bar flags that adds fog.
pub const BOSSBAR_CREATE_FOG: u8 = 4;

/// The flags of a boss bar, as the server keeps them: a bit set.
#[derive(Clone, Copy, Debug, PartialEq, Eq, Structural)]
pub struct BossbarFlags {
    pub bits: u8,
}

/// The flags of a boss bar, as plugins see them.
#[derive(Clone, Copy, Debug, PartialEq, Eq, Structural)]
pub struct BossBarMetadata {
    pub darken_sky: bool,
    pub dragon_bar: bool,
    pub create_fog: bool,
}

impl BossbarFlags {
    /// No flag set.
    pub fn empty() -> (res: Self)
        ensures
            res.bits == 0,
    {
        BossbarFlags { bits: 0 }
    }

    /// Every bit of `flag` is set.
    pub open spec fn spec_contains(&self, flag: u8) -> bool {
        self.bits & flag == flag
    }

    /// Every bit of `flag` is set.
    #[verifier::when_used_as_spec(spec_contains)]
    pub fn contains(&self, flag: u8) -> (res: bool)
        ensures
            res == self.spec_contains(flag),
    {
        self.bits & flag == flag
    }
}

/// The plugin's view of the server's boss bar flags.
pub fn to_wit_metadata(flags: BossbarFlags) -> (res: BossBarMetadata)
    ensures
        res.darken_sky == flags.spec_contains(BOSSBAR_DARKEN_SKY),
        res.dragon_bar == flags.spec_contains(BOSSBAR_DRAGON_BAR),
        res.create_fog == flags.spec_contains(BOSSBAR_CREATE_FOG),
{
    BossBarMetadata {
        darken_sky: flags.contains(BOSSBAR_DARKEN_SKY),
        dragon_bar: flags.contains(BOSSBAR_DRAGON_BAR),
        create_fog: flags.contains(BOSSBAR_CREATE_FOG),
    }
}

/// The bits of the flags that a plugin's boss bar metadata sets.
pub open spec fn metadata_bits(metadata: BossBarMetadata) -> u8 {
    ((if metadata.darken_sky { 1u8 } else { 0u8 }) | (if metadata.dragon_bar { 2u8 } else { 0u8 })
        | (if metadata.create_fog { 4u8 } else { 0u8 })) as u8
}

/// The server's boss bar flags for a plugin's metadata: exactly the flags it sets.
pub fn from_wit_metadata(metadata: BossBarMetadata) -> (res: BossbarFlags)
    ensures
        res.bits == metadata_bits(metadata),
{
    let ghost a = if metadata.darken_sky { 1u8 } else { 0u8 };
    let ghost b = if metadata.dragon_bar { 2u8 } else { 0u8 };
    let ghost c = if metadata.create_fog { 4u8 } else { 0u8 };
    let mut f = BossbarFlags::empty();
    if metadata.darken_sky {
        f.bits = f.bits | BOSSBAR_DARKEN_SKY;
    }
    assert(f.bits == (0u8 | a)) by {
        assert((0u8 | 0u8) == 0u8) by (bit_vector);
    }
    if metadata.dragon_bar {
        f.bits = f.bits | BOSSBAR_DRAGON_BAR;
    }
    assert(f.bits == ((0u8 | a) | b)) by {
        let x = 0u8 | a;
        assert((x | 0u8) == x) by (bit_vector);
    }
    if metadata.create_fog {
        f.bits = f.bits | BOSSBAR_CREATE_FOG;
    }
    assert(f.bits == (((0u8 | a) | b) | c)) by {
        let x = (0u8 | a) | b;
        assert((x | 0u8) == x) by (bit_vector);
    }
    assert((((0u8 | a) | b) | c) == ((a | b) | c)) by (bit_vector);
    f
}

/// Boss bar flags convert both ways: metadata read back from the flags it sets
/// is unchanged, and flags read back from their metadata keep exactly the three
/// known bits.
pub proof fn lemma_boss_bar_flags_round_trip(metadata: BossBarMetadata, flags: BossbarFlags)
    ensures
        ({
            let f = BossbarFlags { bits: metadata_bits(metadata) };
            f.spec_contains(BOSSBAR_DARKEN_SKY) == metadata.darken_sky && f.spec_contains(
                BOSSBAR_DRAGON_BAR,
            ) == metadata.dragon_bar && f.spec_contains(BOSSBAR_CREATE_FOG) == metadata.create_fog
        }),
        metadata_bits(
            BossBarMetadata {
                darken_sky: flags.spec_contains(BOSSBAR_DARKEN_SKY),
                dragon_bar: flags.spec_contains(BOSSBAR_DRAGON_BAR),
                create_fog: flags.spec_contains(BOSSBAR_CREATE_FOG),
            },
        ) == flags.bits & 7,
{
    let a = if metadata.darken_sky { 1u8 } else { 0u8 };
    let b = if metadata.dragon_bar { 2u8 } else { 0u8 };
    let c = if metadata.create_fog { 4u8 } else { 0u8 };
    assert(((a | b | c) & 1 == 1) == (a == 1) && ((a | b | c) & 2 == 2) == (b == 2) && ((a | b
        | c) & 4 == 4) == (c == 4)) by (bit_vector)
        requires
            a == 0 || a == 1,
            b == 0 || b == 2,
            c == 0 || c == 4,
    ;
    let x = flags.bits;
    let a2 = if x & 1 == 1 { 1u8 } else { 0u8 };
    let b2 = if x & 2 == 2 { 2u8 } else { 0u8 };
    let c2 = if x & 4 == 4 { 4u8 } else { 0u8 };
    assert((a2 | b2 | c2) == x & 7) by (bit_vector)
        requires
            a2 == (if x & 1 == 1 { 1u8 } else { 0u8 }),
            b2 == (if x & 2 == 2 { 2u8 } else { 0u8 }),
            c2 == (if x & 4 == 4 { 4u8 } else { 0u8 }),
    ;
}

/// The text on one face of a sign, as plugins see it.
pub struct SignText {
    pub messages: Vec<String>,
    pub color: DyeColor,
    pub has_glowing_text: bool,
}

/// The text on one face of a sign, as the server keeps it: four lines.
pub struct SignFace {
    pub messages: [String; 4],
    pub color: SignDyeColor,
    pub has_glowing_text: bool,
}

/// The four lines a sign face gets from a plugin's lines: the first four,
/// with empty lines after the last one given.
pub open spec fn sign_lines_from_plugin(messages: Seq<String>) -> Seq<Seq<char>> {
    Seq::new(
        4,
        |i: int|
            if i < messages.len() {
                messages[i]@
            } else {
                Seq::<char>::empty()
            },
    )
}

/// The text of some strings.
pub open spec fn texts(messages: Seq<String>) -> Seq<Seq<char>> {
    messages.map_values(|m: String| m@)
}

/// A plugin's view of a sign face: its four lines, colour and glow.
pub fn to_wasm_sign_text(text: &SignFace) -> (res: SignText)
    ensures
        texts(res.messages@) == texts(text.messages@),
        res.color == spec_to_wasm_dye_color(text.color),
        res.has_glowing_text == text.has_glowing_text,
{
    let mut messages: Vec<String> = Vec::new();
    let mut i: usize = 0;
    while i < 4
        invariant
            i <= 4,
            messages@.len() == i,
            text.messages@.len() == 4,
            forall|j: int| 0 <= j < i ==> messages@[j]@ == text.messages@[j]@,
        decreases 4 - i,
    {
        messages.push(text.messages[i].clone());
        i = i + 1;
    }
    assert(texts(messages@) =~= texts(text.messages@));
    SignText {
        messages,
        color: to_wasm_dye_color(text.color),
        has_glowing_text: text.has_glowing_text,
    }
}

fn line_or_empty(messages: &Vec<String>, i: usize) -> (res: String)
    ensures
        res@ == if i < messages@.len() {
            messages@[i as int]@
        } else {
            Seq::<char>::empty()
        },
{
    if i < messages.len() {
        messages[i].clone()
    } else {
        String::new()
    }
}

/// The server's sign face for a plugin's sign text: the first four lines,
/// padded with empty lines, the colour and the glow.
pub fn from_wasm_sign_text(text: SignText) -> (res: SignFace)
    ensures
        texts(res.messages@) == sign_lines_from_plugin(text.messages@),
        res.color == spec_from_wasm_dye_color(text.color),
        res.has_glowing_text == text.has_glowing_text,
{
    let m0 = line_or_empty(&text.messages, 0);
    let m1 = line_or_empty(&text.messages, 1);
    let m2 = line_or_empty(&text.messages, 2);
    let m3 = line_or_empty(&text.messages, 3);
    let messages = [m0, m1, m2, m3];
    assert(texts(messages@) =~= sign_lines_from_plugin(text.messages@));
    SignFace {
        messages,
        color: from_wasm_dye_color(text.color),
        has_glowing_text: text.has_glowing_text,
    }
}

/// A sign face shown to a plugin and taken back is unchanged: same lines,
/// colour and glow.
pub proof fn lemma_sign_text_round_trip(messages: Seq<String>, color: SignDyeColor)
    requires
        messages.len() == 4,
    ensures
        sign_lines_from_plugin(messages) == texts(messages),
        spec_from_wasm_dye_color(spec_to_wasm_dye_color(color)) == color,
{
    assert(sign_lines_from_plugin(messages) =~= texts(messages));
}

/// A data pack, as the server describes it.
pub struct DatapackInfo {
    pub id: String,
    pub name: String,
    pub description: String,
    pub pack_format: u32,
    pub is_enabled: bool,
    pub recipe_count: usize,
    pub function_count: usize,
}

/// A data pack, as plugins see it.
pub struct WitDatapackInfo {
    pub id: String,
    pub name: String,
    pub description: String,
    pub pack_format: u32,
    pub is_enabled: bool,
    pub recipe_count: u32,
    pub function_count: u32,
}

/// A plugin's view of a data pack; the counts are cut to 32 bits.
pub fn to_wit_datapack_info(info: DatapackInfo) -> (res: WitDatapackInfo)
    ensures
        res.id == info.id,
        res.name == info.name,
        res.description == info.description,
        res.pack_format == info.pack_format,
        res.is_enabled == info.is_enabled,
        res.recipe_count == info.recipe_count as u32,
        res.function_count == info.function_count as u32,
{
    WitDatapackInfo {
        id: info.id,
        name: info.name,
        description: info.description,
        pack_format: info.pack_format,
        is_enabled: info.is_enabled,
        recipe_count: #[verifier::truncate] (info.recipe_count as u32),
        function_count: #[verifier::truncate] (info.function_count as u32),
    }
}

/// Where a plugin asks for a data pack to be placed when it is enabled.
pub enum EnablePosition {
    First,
    Last,
    Before(String),
    After(String),
}

/// Where the server places a data pack when it is enabled.
pub enum DatapackEnablePosition {
    First,
    Last,
    Before(String),
    After(String),
}

/// The server's placement for a plugin's.
pub fn to_data_enable_position(pos: EnablePosition) -> (res: DatapackEnablePosition)
    ensures
        match pos {
            EnablePosition::First => res is First,
            EnablePosition::Last => res is Last,
            EnablePosition::Before(s) => res == DatapackEnablePosition::Before(s),
            EnablePosition::After(s) => res == DatapackEnablePosition::After(s),
        },
{
    match pos {
        EnablePosition::First => DatapackEnablePosition::First,
        EnablePosition::Last => DatapackEnablePosition::Last,
        EnablePosition::Before(s) => DatapackEnablePosition::Before(s),
        EnablePosition::After(s) => DatapackEnablePosition::After(s),
    }
}

/// The name of each `DyeColor` variant, as text.
pub open spec fn dye_color_name(v: DyeColor) -> Seq<char> {
    match v {
        DyeColor::White => "White"@,
        DyeColor::Orange => "Orange"@,
        DyeColor::Magenta => "Magenta"@,
        DyeColor::LightBlue => "LightBlue"@,
        DyeColor::Yellow => "Yellow"@,
        DyeColor::Lime => "Lime"@,
        DyeColor::Pink => "Pink"@,
        DyeColor::Gray => "Gray"@,
        DyeColor::LightGray => "LightGray"@,
        DyeColor::Cyan => "Cyan"@,
        DyeColor::Purple => "Purple"@,
        DyeColor::Blue => "Blue"@,
        DyeColor::Brown => "Brown"@,
        DyeColor::Green => "Green"@,
        DyeColor::Red => "Red"@,
        DyeColor::Black => "Black"@,
    }
}

/// The name of each `SignDyeColor` variant, as text.
pub open spec fn sign_dye_color_name(v: SignDyeColor) -> Seq<char> {
    match v {
        SignDyeColor::White => "White"@,
        SignDyeColor::Orange => "Orange"@,
        SignDyeColor::Magenta => "Magenta"@,
        SignDyeColor::LightBlue => "LightBlue"@,
        SignDyeColor::Yellow => "Yellow"@,
        SignDyeColor::Lime => "Lime"@,
        SignDyeColor::Pink => "Pink"@,
        SignDyeColor::Gray => "Gray"@,
        SignDyeColor::LightGray => "LightGray"@,
        SignDyeColor::Cyan => "Cyan"@,
        SignDyeColor::Purple => "Purple"@,
        SignDyeColor::Blue => "Blue"@,
        SignDyeColor::Brown => "Brown"@,
        SignDyeColor::Green => "Green"@,
        SignDyeColor::Red => "Red"@,
        SignDyeColor::Black => "Black"@,
    }
}

/// A plugin's dye colour becomes the sign colour of the same name.
pub proof fn lemma_from_wasm_dye_color_keeps_name(v: DyeColor)
    ensures
        sign_dye_color_name(spec_from_wasm_dye_color(v)) == dye_color_name(v),
{
    match v {
        DyeColor::White => {},
        DyeColor::Orange => {},
        DyeColor::Magenta => {},
        DyeColor::LightBlue => {},
        DyeColor::Yellow => {},
        DyeColor::Lime => {},
        DyeColor::Pink => {},
        DyeColor::Gray => {},
        DyeColor::LightGray => {},
        DyeColor::Cyan => {},
        DyeColor::Purple => {},
        DyeColor::Blue => {},
        DyeColor::Brown => {},
        DyeColor::Green => {},
        DyeColor::Red => {},
        DyeColor::Black => {},
    }
}

/// A sign colour reaches plugins as the dye colour of the same name.
pub proof fn lemma_to_wasm_dye_color_keeps_name(v: SignDyeColor)
    ensures
        dye_color_name(spec_to_wasm_dye_color(v)) == sign_dye_color_name(v),
{
    match v {
        SignDyeColor::White => {},
        SignDyeColor::Orange => {},
        SignDyeColor::Magenta => {},
        SignDyeColor::LightBlue => {},
        SignDyeColor::Yellow => {},
        SignDyeColor::Lime => {},
        SignDyeColor::Pink => {},
        SignDyeColor::Gray => {},
        SignDyeColor::LightGray => {},
        SignDyeColor::Cyan => {},
        SignDyeColor::Purple => {},
        SignDyeColor::Blue => {},
        SignDyeColor::Brown => {},
        SignDyeColor::Green => {},
        SignDyeColor::Red => {},
        SignDyeColor::Black => {},
    }
}

/// The name of each `BossbarColor` variant, as text.
pub open spec fn bossbar_color_name(v: BossbarColor) -> Seq<char> {
    match v {
        BossbarColor::Pink => "Pink"@,
        BossbarColor::Blue => "Blue"@,
        BossbarColor::Red => "Red"@,
        BossbarColor::Green => "Green"@,
        BossbarColor::Yellow => "Yellow"@,
        BossbarColor::Purple => "Purple"@,
        BossbarColor::White => "White"@,
    }
}

/// The name of each `BossBarColor` variant, as text.
pub open spec fn boss_bar_color_name(v: BossBarColor) -> Seq<char> {
    match v {
        BossBarColor::Pink => "Pink"@,
        BossBarColor::Blue => "Blue"@,
        BossBarColor::Red => "Red"@,
        BossBarColor::Green => "Green"@,
        BossBarColor::Yellow => "Yellow"@,
        BossBarColor::Purple => "Purple"@,
        BossBarColor::White => "White"@,
    }
}

/// A boss bar colour reaches plugins as the colour of the same name.
pub proof fn lemma_to_wit_color_keeps_name(v: BossbarColor)
    ensures
        boss_bar_color_name(spec_to_wit_color(v)) == bossbar_color_name(v),
{
    match v {
        BossbarColor::Pink => {},
        BossbarColor::Blue => {},
        BossbarColor::Red => {},
        BossbarColor::Green => {},
        BossbarColor::Yellow => {},
        BossbarColor::Purple => {},
        BossbarColor::White => {},
    }
}

/// A plugin's boss bar colour becomes the server colour of the same name.
pub proof fn lemma_from_wit_color_keeps_name(v: BossBarColor)
    ensures
        bossbar_color_name(spec_from_wit_color(v)) == boss_bar_color_name(v),
{
    match v {
        BossBarColor::Pink => {},
        BossBarColor::Blue => {},
        BossBarColor::Red => {},
        BossBarColor::Green => {},
        BossBarColor::Yellow => {},
        BossBarColor::Purple => {},
        BossBarColor::White => {},
    }
}

/// The name of each `BossbarDivisions` variant, as text.
pub open spec fn bossbar_divisions_name(v: BossbarDivisions) -> Seq<char> {
    match v {
        BossbarDivisions::NoDivision => "NoDivision"@,
        BossbarDivisions::Notches6 => "Notches6"@,
        BossbarDivisions::Notches10 => "Notches10"@,
        BossbarDivisions::Notches12 => "Notches12"@,
        BossbarDivisions::Notches20 => "Notches20"@,
    }
}

/// The name of each `BossBarDivision` variant, as text.
pub open spec fn boss_bar_division_name(v: BossBarDivision) -> Seq<char> {
    match v {
        BossBarDivision::NoDivision => "NoDivision"@,
        BossBarDivision::Notches6 => "Notches6"@,
        BossBarDivision::Notches10 => "Notches10"@,
        BossBarDivision::Notches12 => "Notches12"@,
        BossBarDivision::Notches20 => "Notches20"@,
    }
}

/// A boss bar division reaches plugins as the division of the same name.
pub proof fn lemma_to_wit_division_keeps_name(v: BossbarDivisions)
    ensures
        boss_bar_division_name(spec_to_wit_division(v)) == bossbar_divisions_name(v),
{
    match v {
        BossbarDivisions::NoDivision => {},
        BossbarDivisions::Notches6 => {},
        BossbarDivisions::Notches10 => {},
        BossbarDivisions::Notches12 => {},
        BossbarDivisions::Notches20 => {},
    }
}

/// A plugin's boss bar division becomes the server division of the same name.
pub proof fn lemma_from_wit_division_keeps_name(v: BossBarDivision)
    ensures
        bossbar_divisions_name(spec_from_wit_division(v)) == boss_bar_division_name(v),
{
    match v {
        BossBarDivision::NoDivision => {},
        BossBarDivision::Notches6 => {},
        BossBarDivision::Notches10 => {},
        BossBarDivision::Notches12 => {},
        BossBarDivision::Notches20 => {},
    }
}

} // verus!
