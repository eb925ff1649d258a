//! The client locales the server knows, and how plugins see them.

use vstd::prelude::*;

verus! {

/// A client locale, as the server keeps it.
#[derive(Clone, Copy, Debug, PartialEq, Eq, Structural)]
pub enum ServerLocale {
    AfZa,
    ArSa,
    AstEs,
    AzAz,
    BaRu,
    Bar,
    BeBy,
    BgBg,
    BrFr,
    Brb,
    BsBa,
    CaEs,
    CsCz,
    CyGb,
    DaDk,
    DeAt,
    DeCh,
    DeDe,
    ElGr,
    EnAu,
    EnCa,
    EnGb,
    EnNz,
    EnPt,
    EnUd,
    EnUs,
    Enp,
    Enws,
    EoUy,
    EsAr,
    EsCl,
    EsEc,
    EsEs,
    EsMx,
    EsUy,
    EsVe,
    Esan,
    EtEe,
    EuEs,
    FaIr,
    FiFi,
    FilPh,
    FoFo,
    FrCa,
    FrFr,
    FraDe,
    FurIt,
    FyNl,
    GaIe,
    GdGb,
    GlEs,
    HawUs,
    HeIl,
    HiIn,
    HrHr,
    HuHu,
    HyAm,
    IdId,
    IgNg,
    IoEn,
    IsIs,
    Isv,
    ItIt,
    JaJp,
    JboEn,
    KaGe,
    KkKz,
    KnIn,
    KoKr,
    Ksh,
    KwGb,
    LaLa,
    LbLu,
    LiLi,
    Lmo,
    LoLa,
    LolUs,
    LtLt,
    LvLv,
    Lzh,
    MkMk,
    MnMn,
    MsMy,
    MtMt,
    Nah,
    NdsDe,
    NlBe,
    NlNl,
    NnNo,
    NoNo,
    OcFr,
    Ovd,
    PlPl,
    PtBr,
    PtPt,
    QyaAa,
    RoRo,
    Rpr,
    RuRu,
    RyUa,
    SahSah,
    SeNo,
    SkSk,
    SlSi,
    SoSo,
    SqAl,
    SrCs,
    SrSp,
    SvSe,
    Sxu,
    Szl,
    TaIn,
    ThTh,
    TlPh,
    TlhAa,
    Tok,
    TrTr,
    TtRu,
    UkUa,
    ValEs,
    VecIt,
    ViVn,
    YiDe,
    YoNg,
    ZhCn,
    ZhHk,
    ZhTw,
    ZlmArab,
}

/// A client locale, as plugins see it.
#[derive(Clone, Copy, Debug, PartialEq, Eq, Structural)]
pub enum Locale {
    AfZa,
    ArSa,
    AstEs,
    AzAz,
    BaRu,
    Bar,
    BeBy,
    BgBg,
    BrFr,
    Brb,
    BsBa,
    CaEs,
    CsCz,
    CyGb,
    DaDk,
    DeAt,
    DeCh,
    DeDe,
    ElGr,
    EnAu,
    EnCa,
    EnGb,
    EnNz,
    EnPt,
    EnUd,
    EnUs,
    Enp,
    Enws,
    EoUy,
    EsAr,
    EsCl,
    EsEc,
    EsEs,
    EsMx,
    EsUy,
    EsVe,
    Esan,
    EtEe,
    EuEs,
    FaIr,
    FiFi,
    FilPh,
    FoFo,
    FrCa,
    FrFr,
    FraDe,
    FurIt,
    FyNl,
    GaIe,
    GdGb,
    GlEs,
    HawUs,
    HeIl,
    HiIn,
    HrHr,
    HuHu,
    HyAm,
    IdId,
    IgNg,
    IoEn,
    IsIs,
    Isv,
    ItIt,
    JaJp,
    JboEn,
    KaGe,
    KkKz,
    KnIn,
    KoKr,
    Ksh,
    KwGb,
    LaLa,
    LbLu,
    LiLi,
    Lmo,
    LoLa,
    LolUs,
    LtLt,
    LvLv,
    Lzh,
    MkMk,
    MnMn,
    MsMy,
    MtMt,
    Nah,
    NdsDe,
    NlBe,
    NlNl,
    NnNo,
    NoNo,
    OcFr,
    Ovd,
    PlPl,
    PtBr,
    PtPt,
    QyaAa,
    RoRo,
    Rpr,
    RuRu,
    RyUa,
    SahSah,
    SeNo,
    SkSk,
    SlSi,
    SoSo,
    SqAl,
    SrCs,
    SrSp,
    SvSe,
    Sxu,
    Szl,
    TaIn,
    ThTh,
    TlPh,
    TlhAa,
    Tok,
    TrTr,
    TtRu,
    UkUa,
    ValEs,
    VecIt,
    ViVn,
    YiDe,
    YoNg,
    ZhCn,
    ZhHk,
    ZhTw,
    ZlmArab,
}

/// The plugin's locale for the server's: the locale of the same name.
pub open spec fn spec_map_util_locale_to_wit(locale: ServerLocale) -> Locale {
    match locale {
        ServerLocale::AfZa => Locale::AfZa,
        ServerLocale::ArSa => Locale::ArSa,
        ServerLocale::AstEs => Locale::AstEs,
        ServerLocale::AzAz => Locale::AzAz,
        ServerLocale::BaRu => Locale::BaRu,
        ServerLocale::Bar => Locale::Bar,
        ServerLocale::BeBy => Locale::BeBy,
        ServerLocale::BgBg => Locale::BgBg,
        ServerLocale::BrFr => Locale::BrFr,
        ServerLocale::Brb => Locale::Brb,
        ServerLocale::BsBa => Locale::BsBa,
        ServerLocale::CaEs => Locale::CaEs,
        ServerLocale::CsCz => Locale::CsCz,
        ServerLocale::CyGb => Locale::CyGb,
        ServerLocale::DaDk => Locale::DaDk,
        ServerLocale::DeAt => Locale::DeAt,
        ServerLocale::DeCh => Locale::DeCh,
        ServerLocale::DeDe => Locale::DeDe,
        ServerLocale::ElGr => Locale::ElGr,
        ServerLocale::EnAu => Locale::EnAu,
        ServerLocale::EnCa => Locale::EnCa,
        ServerLocale::EnGb => Locale::EnGb,
        ServerLocale::EnNz => Locale::EnNz,
        ServerLocale::EnPt => Locale::EnPt,
        ServerLocale::EnUd => Locale::EnUd,
        ServerLocale::EnUs => Locale::EnUs,
        ServerLocale::Enp => Locale::Enp,
        ServerLocale::Enws => Locale::Enws,
        ServerLocale::EoUy => Locale::EoUy,
        ServerLocale::EsAr => Locale::EsAr,
        ServerLocale::EsCl => Locale::EsCl,
        ServerLocale::EsEc => Locale::EsEc,
        ServerLocale::EsEs => Locale::EsEs,
        ServerLocale::EsMx => Locale::EsMx,
        ServerLocale::EsUy => Locale::EsUy,
        ServerLocale::EsVe => Locale::EsVe,
        ServerLocale::Esan => Locale::Esan,
        ServerLocale::EtEe => Locale::EtEe,
        ServerLocale::EuEs => Locale::EuEs,
        ServerLocale::FaIr => Locale::FaIr,
        ServerLocale::FiFi => Locale::FiFi,
        ServerLocale::FilPh => Locale::FilPh,
        ServerLocale::FoFo => Locale::FoFo,
        ServerLocale::FrCa => Locale::FrCa,
        ServerLocale::FrFr => Locale::FrFr,
        ServerLocale::FraDe => Locale::FraDe,
        ServerLocale::FurIt => Locale::FurIt,
        ServerLocale::FyNl => Locale::FyNl,
        ServerLocale::GaIe => Locale::GaIe,
        ServerLocale::GdGb => Locale::GdGb,
        ServerLocale::GlEs => Locale::GlEs,
        ServerLocale::HawUs => Locale::HawUs,
        ServerLocale::HeIl => Locale::HeIl,
        ServerLocale::HiIn => Locale::HiIn,
        ServerLocale::HrHr => Locale::HrHr,
        ServerLocale::HuHu => Locale::HuHu,
        ServerLocale::HyAm => Locale::HyAm,
        ServerLocale::IdId => Locale::IdId,
        ServerLocale::IgNg => Locale::IgNg,
        ServerLocale::IoEn => Locale::IoEn,
        ServerLocale::IsIs => Locale::IsIs,
        ServerLocale::Isv => Locale::Isv,
        ServerLocale::ItIt => Locale::ItIt,
        ServerLocale::JaJp => Locale::JaJp,
        ServerLocale::JboEn => Locale::JboEn,
        ServerLocale::KaGe => Locale::KaGe,
        ServerLocale::KkKz => Locale::KkKz,
        ServerLocale::KnIn => Locale::KnIn,
        ServerLocale::KoKr => Locale::KoKr,
        ServerLocale::Ksh => Locale::Ksh,
        ServerLocale::KwGb => Locale::KwGb,
        ServerLocale::LaLa => Locale::LaLa,
        ServerLocale::LbLu => Locale::LbLu,
        ServerLocale::LiLi => Locale::LiLi,
        ServerLocale::Lmo => Locale::Lmo,
        ServerLocale::LoLa => Locale::LoLa,
        ServerLocale::LolUs => Locale::LolUs,
        ServerLocale::LtLt => Locale::LtLt,
        ServerLocale::LvLv => Locale::LvLv,
        ServerLocale::Lzh => Locale::Lzh,
        ServerLocale::MkMk => Locale::MkMk,
        ServerLocale::MnMn => Locale::MnMn,
        ServerLocale::MsMy => Locale::MsMy,
        ServerLocale::MtMt => Locale::MtMt,
        ServerLocale::Nah => Locale::Nah,
        ServerLocale::NdsDe => Locale::NdsDe,
        ServerLocale::NlBe => Locale::NlBe,
        ServerLocale::NlNl => Locale::NlNl,
        ServerLocale::NnNo => Locale::NnNo,
        ServerLocale::NoNo => Locale::NoNo,
        ServerLocale::OcFr => Locale::OcFr,
        ServerLocale::Ovd => Locale::Ovd,
        ServerLocale::PlPl => Locale::PlPl,
        ServerLocale::PtBr => Locale::PtBr,
        ServerLocale::PtPt => Locale::PtPt,
        ServerLocale::QyaAa => Locale::QyaAa,
        ServerLocale::RoRo => Locale::RoRo,
        ServerLocale::Rpr => Locale::Rpr,
        ServerLocale::RuRu => Locale::RuRu,
        ServerLocale::RyUa => Locale::RyUa,
        ServerLocale::SahSah => Locale::SahSah,
        ServerLocale::SeNo => Locale::SeNo,
        ServerLocale::SkSk => Locale::SkSk,
        ServerLocale::SlSi => Locale::SlSi,
        ServerLocale::SoSo => Locale::SoSo,
        ServerLocale::SqAl => Locale::SqAl,
        ServerLocale::SrCs => Locale::SrCs,
        ServerLocale::SrSp => Locale::SrSp,
        ServerLocale::SvSe => Locale::SvSe,
        ServerLocale::Sxu => Locale::Sxu,
        ServerLocale::Szl => Locale::Szl,
        ServerLocale::TaIn => Locale::TaIn,
        ServerLocale::ThTh => Locale::ThTh,
        ServerLocale::TlPh => Locale::TlPh,
        ServerLocale::TlhAa => Locale::TlhAa,
        ServerLocale::Tok => Locale::Tok,
        ServerLocale::TrTr => Locale::TrTr,
        ServerLocale::TtRu => Locale::TtRu,
        ServerLocale::UkUa => Locale::UkUa,
        ServerLocale::ValEs => Locale::ValEs,
        ServerLocale::VecIt => Locale::VecIt,
        ServerLocale::ViVn => Locale::ViVn,
        ServerLocale::YiDe => Locale::YiDe,
        ServerLocale::YoNg => Locale::YoNg,
        ServerLocale::ZhCn => Locale::ZhCn,
        ServerLocale::ZhHk => Locale::ZhHk,
        ServerLocale::ZhTw => Locale::ZhTw,
        ServerLocale::ZlmArab => Locale::ZlmArab,
    }
}

/// The plugin's locale for the server's: the locale of the same name.
pub fn map_util_locale_to_wit(locale: ServerLocale) -> (res: Locale)
    ensures
        res == spec_map_util_locale_to_wit(locale),
{
    match locale {
        ServerLocale::AfZa => Locale::AfZa,
        ServerLocale::ArSa => Locale::ArSa,
        ServerLocale::AstEs => Locale::AstEs,
        ServerLocale::AzAz => Locale::AzAz,
        ServerLocale::BaRu => Locale::BaRu,
        ServerLocale::Bar => Locale::Bar,
        ServerLocale::BeBy => Locale::BeBy,
        ServerLocale::BgBg => Locale::BgBg,
        ServerLocale::BrFr => Locale::BrFr,
        ServerLocale::Brb => Locale::Brb,
        ServerLocale::BsBa => Locale::BsBa,
        ServerLocale::CaEs => Locale::CaEs,
        ServerLocale::CsCz => Locale::CsCz,
        ServerLocale::CyGb => Locale::CyGb,
        ServerLocale::DaDk => Locale::DaDk,
        ServerLocale::DeAt => Locale::DeAt,
        ServerLocale::DeCh => Locale::DeCh,
        ServerLocale::DeDe => Locale::DeDe,
        ServerLocale::ElGr => Locale::ElGr,
        ServerLocale::EnAu => Locale::EnAu,
        ServerLocale::EnCa => Locale::EnCa,
        ServerLocale::EnGb => Locale::EnGb,
        ServerLocale::EnNz => Locale::EnNz,
        ServerLocale::EnPt => Locale::EnPt,
        ServerLocale::EnUd => Locale::EnUd,
        ServerLocale::EnUs => Locale::EnUs,
        ServerLocale::Enp => Locale::Enp,
        ServerLocale::Enws => Locale::Enws,
        ServerLocale::EoUy => Locale::EoUy,
        ServerLocale::EsAr => Locale::EsAr,
        ServerLocale::EsCl => Locale::EsCl,
        ServerLocale::EsEc => Locale::EsEc,
        ServerLocale::EsEs => Locale::EsEs,
        ServerLocale::EsMx => Locale::EsMx,
        ServerLocale::EsUy => Locale::EsUy,
        ServerLocale::EsVe => Locale::EsVe,
        ServerLocale::Esan => Locale::Esan,
        ServerLocale::EtEe => Locale::EtEe,
        ServerLocale::EuEs => Locale::EuEs,
        ServerLocale::FaIr => Locale::FaIr,
        ServerLocale::FiFi => Locale::FiFi,
        ServerLocale::FilPh => Locale::FilPh,
        ServerLocale::FoFo => Locale::FoFo,
        ServerLocale::FrCa => Locale::FrCa,
        ServerLocale::FrFr => Locale::FrFr,
        ServerLocale::FraDe => Locale::FraDe,
        ServerLocale::FurIt => Locale::FurIt,
        ServerLocale::FyNl => Locale::FyNl,
        ServerLocale::GaIe => Locale::GaIe,
        ServerLocale::GdGb => Locale::GdGb,
        ServerLocale::GlEs => Locale::GlEs,
        ServerLocale::HawUs => Locale::HawUs,
        ServerLocale::HeIl => Locale::HeIl,
        ServerLocale::HiIn => Locale::HiIn,
        ServerLocale::HrHr => Locale::HrHr,
        ServerLocale::HuHu => Locale::HuHu,
        ServerLocale::HyAm => Locale::HyAm,
        ServerLocale::IdId => Locale::IdId,
        ServerLocale::IgNg => Locale::IgNg,
        ServerLocale::IoEn => Locale::IoEn,
        ServerLocale::IsIs => Locale::IsIs,
        ServerLocale::Isv => Locale::Isv,
        ServerLocale::ItIt => Locale::ItIt,
        ServerLocale::JaJp => Locale::JaJp,
        ServerLocale::JboEn => Locale::JboEn,
        ServerLocale::KaGe => Locale::KaGe,
        ServerLocale::KkKz => Locale::KkKz,
        ServerLocale::KnIn => Locale::KnIn,
        ServerLocale::KoKr => Locale::KoKr,
        ServerLocale::Ksh => Locale::Ksh,
        ServerLocale::KwGb => Locale::KwGb,
        ServerLocale::LaLa => Locale::LaLa,
        ServerLocale::LbLu => Locale::LbLu,
        ServerLocale::LiLi => Locale::LiLi,
        ServerLocale::Lmo => Locale::Lmo,
        ServerLocale::LoLa => Locale::LoLa,
        ServerLocale::LolUs => Locale::LolUs,
        ServerLocale::LtLt => Locale::LtLt,
        ServerLocale::LvLv => Locale::LvLv,
        ServerLocale::Lzh => Locale::Lzh,
        ServerLocale::MkMk => Locale::MkMk,
        ServerLocale::MnMn => Locale::MnMn,
        ServerLocale::MsMy => Locale::MsMy,
        ServerLocale::MtMt => Locale::MtMt,
        ServerLocale::Nah => Locale::Nah,
        ServerLocale::NdsDe => Locale::NdsDe,
        ServerLocale::NlBe => Locale::NlBe,
        ServerLocale::NlNl => Locale::NlNl,
        ServerLocale::NnNo => Locale::NnNo,
        ServerLocale::NoNo => Locale::NoNo,
        ServerLocale::OcFr => Locale::OcFr,
        ServerLocale::Ovd => Locale::Ovd,
        ServerLocale::PlPl => Locale::PlPl,
        ServerLocale::PtBr => Locale::PtBr,
        ServerLocale::PtPt => Locale::PtPt,
        ServerLocale::QyaAa => Locale::QyaAa,
        ServerLocale::RoRo => Locale::RoRo,
        ServerLocale::Rpr => Locale::Rpr,
        ServerLocale::RuRu => Locale::RuRu,
        ServerLocale::RyUa => Locale::RyUa,
        ServerLocale::SahSah => Locale::SahSah,
        ServerLocale::SeNo => Locale::SeNo,
        ServerLocale::SkSk => Locale::SkSk,
        ServerLocale::SlSi => Locale::SlSi,
        ServerLocale::SoSo => Locale::SoSo,
        ServerLocale::SqAl => Locale::SqAl,
        ServerLocale::SrCs => Locale::SrCs,
        ServerLocale::SrSp => Locale::SrSp,
        ServerLocale::SvSe => Locale::SvSe,
        ServerLocale::Sxu => Locale::Sxu,
        ServerLocale::Szl => Locale::Szl,
        ServerLocale::TaIn => Locale::TaIn,
        ServerLocale::ThTh => Locale::ThTh,
        ServerLocale::TlPh => Locale::TlPh,
        ServerLocale::TlhAa => Locale::TlhAa,
        ServerLocale::Tok => Locale::Tok,
        ServerLocale::TrTr => Locale::TrTr,
        ServerLocale::TtRu => Locale::TtRu,
        ServerLocale::UkUa => Locale::UkUa,
        ServerLocale::ValEs => Locale::ValEs,
        ServerLocale::VecIt => Locale::VecIt,
        ServerLocale::ViVn => Locale::ViVn,
        ServerLocale::YiDe => Locale::YiDe,
        ServerLocale::YoNg => Locale::YoNg,
        ServerLocale::ZhCn => Locale::ZhCn,
        ServerLocale::ZhHk => Locale::ZhHk,
        ServerLocale::ZhTw => Locale::ZhTw,
        ServerLocale::ZlmArab => Locale::ZlmArab,
    }
}

/// Distinct server locales are shown to plugins as distinct locales.
pub proof fn lemma_locale_map_is_injective(a: ServerLocale, b: ServerLocale)
    ensures
        spec_map_util_locale_to_wit(a) == spec_map_util_locale_to_wit(b) ==> a == b,
{
}

/// The name of each `ServerLocale` variant, as text.
pub open spec fn server_locale_name(v: ServerLocale) -> Seq<char> {
    match v {
        ServerLocale::AfZa => "AfZa"@,
        ServerLocale::ArSa => "ArSa"@,
        ServerLocale::AstEs => "AstEs"@,
        ServerLocale::AzAz => "AzAz"@,
        ServerLocale::BaRu => "BaRu"@,
        ServerLocale::Bar => "Bar"@,
        ServerLocale::BeBy => "BeBy"@,
        ServerLocale::BgBg => "BgBg"@,
        ServerLocale::BrFr => "BrFr"@,
        ServerLocale::Brb => "Brb"@,
        ServerLocale::BsBa => "BsBa"@,
        ServerLocale::CaEs => "CaEs"@,
        ServerLocale::CsCz => "CsCz"@,
        ServerLocale::CyGb => "CyGb"@,
        ServerLocale::DaDk => "DaDk"@,
        ServerLocale::DeAt => "DeAt"@,
        ServerLocale::DeCh => "DeCh"@,
        ServerLocale::DeDe => "DeDe"@,
        ServerLocale::ElGr => "ElGr"@,
        ServerLocale::EnAu => "EnAu"@,
        ServerLocale::EnCa => "EnCa"@,
        ServerLocale::EnGb => "EnGb"@,
        ServerLocale::EnNz => "EnNz"@,
        ServerLocale::EnPt => "EnPt"@,
        ServerLocale::EnUd => "EnUd"@,
        ServerLocale::EnUs => "EnUs"@,
        ServerLocale::Enp => "Enp"@,
        ServerLocale::Enws => "Enws"@,
        ServerLocale::EoUy => "EoUy"@,
        ServerLocale::EsAr => "EsAr"@,
        ServerLocale::EsCl => "EsCl"@,
        ServerLocale::EsEc => "EsEc"@,
        ServerLocale::EsEs => "EsEs"@,
        ServerLocale::EsMx => "EsMx"@,
        ServerLocale::EsUy => "EsUy"@,
        ServerLocale::EsVe => "EsVe"@,
        ServerLocale::Esan => "Esan"@,
        ServerLocale::EtEe => "EtEe"@,
        ServerLocale::EuEs => "EuEs"@,
        ServerLocale::FaIr => "FaIr"@,
        ServerLocale::FiFi => "FiFi"@,
        ServerLocale::FilPh => "FilPh"@,
        ServerLocale::FoFo => "FoFo"@,
        ServerLocale::FrCa => "FrCa"@,
        ServerLocale::FrFr => "FrFr"@,
        ServerLocale::FraDe => "FraDe"@,
        ServerLocale::FurIt => "FurIt"@,
        ServerLocale::FyNl => "FyNl"@,
        ServerLocale::GaIe => "GaIe"@,
        ServerLocale::GdGb => "GdGb"@,
        ServerLocale::GlEs => "GlEs"@,
        ServerLocale::HawUs => "HawUs"@,
        ServerLocale::HeIl => "HeIl"@,
        ServerLocale::HiIn => "HiIn"@,
        ServerLocale::HrHr => "HrHr"@,
        ServerLocale::HuHu => "HuHu"@,
        ServerLocale::HyAm => "HyAm"@,
        ServerLocale::IdId => "IdId"@,
        ServerLocale::IgNg => "IgNg"@,
        ServerLocale::IoEn => "IoEn"@,
        ServerLocale::IsIs => "IsIs"@,
        ServerLocale::Isv => "Isv"@,
        ServerLocale::ItIt => "ItIt"@,
        ServerLocale::JaJp => "JaJp"@,
        ServerLocale::JboEn => "JboEn"@,
        ServerLocale::KaGe => "KaGe"@,
        ServerLocale::KkKz => "KkKz"@,
        ServerLocale::KnIn => "KnIn"@,
        ServerLocale::KoKr => "KoKr"@,
        ServerLocale::Ksh => "Ksh"@,
        ServerLocale::KwGb => "KwGb"@,
        ServerLocale::LaLa => "LaLa"@,
        ServerLocale::LbLu => "LbLu"@,
        ServerLocale::LiLi => "LiLi"@,
        ServerLocale::Lmo => "Lmo"@,
        ServerLocale::LoLa => "LoLa"@,
        ServerLocale::LolUs => "LolUs"@,
        ServerLocale::LtLt => "LtLt"@,
        ServerLocale::LvLv => "LvLv"@,
        ServerLocale::Lzh => "Lzh"@,
        ServerLocale::MkMk => "MkMk"@,
        ServerLocale::MnMn => "MnMn"@,
        ServerLocale::MsMy => "MsMy"@,
        ServerLocale::MtMt => "MtMt"@,
        ServerLocale::Nah => "Nah"@,
        ServerLocale::NdsDe => "NdsDe"@,
        ServerLocale::NlBe => "NlBe"@,
        ServerLocale::NlNl => "NlNl"@,
        ServerLocale::NnNo => "NnNo"@,
        ServerLocale::NoNo => "NoNo"@,
        ServerLocale::OcFr => "OcFr"@,
        ServerLocale::Ovd => "Ovd"@,
        ServerLocale::PlPl => "PlPl"@,
        ServerLocale::PtBr => "PtBr"@,
        ServerLocale::PtPt => "PtPt"@,
        ServerLocale::QyaAa => "QyaAa"@,
        ServerLocale::RoRo => "RoRo"@,
        ServerLocale::Rpr => "Rpr"@,
        ServerLocale::RuRu => "RuRu"@,
        ServerLocale::RyUa => "RyUa"@,
        ServerLocale::SahSah => "SahSah"@,
        ServerLocale::SeNo => "SeNo"@,
        ServerLocale::SkSk => "SkSk"@,
        ServerLocale::SlSi => "SlSi"@,
        ServerLocale::SoSo => "SoSo"@,
        ServerLocale::SqAl => "SqAl"@,
        ServerLocale::SrCs => "SrCs"@,
        ServerLocale::SrSp => "SrSp"@,
        ServerLocale::SvSe => "SvSe"@,
        ServerLocale::Sxu => "Sxu"@,
        ServerLocale::Szl => "Szl"@,
        ServerLocale::TaIn => "TaIn"@,
        ServerLocale::ThTh => "ThTh"@,
        ServerLocale::TlPh => "TlPh"@,
        ServerLocale::TlhAa => "TlhAa"@,
        ServerLocale::Tok => "Tok"@,
        ServerLocale::TrTr => "TrTr"@,
        ServerLocale::TtRu => "TtRu"@,
        ServerLocale::UkUa => "UkUa"@,
        ServerLocale::ValEs => "ValEs"@,
        ServerLocale::VecIt => "VecIt"@,
        ServerLocale::ViVn => "ViVn"@,
        ServerLocale::YiDe => "YiDe"@,
        ServerLocale::YoNg => "YoNg"@,
        ServerLocale::ZhCn => "ZhCn"@,
        ServerLocale::ZhHk => "ZhHk"@,
        ServerLocale::ZhTw => "ZhTw"@,
        ServerLocale::ZlmArab => "ZlmArab"@,
    }
}

/// The name of each `Locale` variant, as text.
pub open spec fn locale_name(v: Locale) -> Seq<char> {
    match v {
        Locale::AfZa => "AfZa"@,
        Locale::ArSa => "ArSa"@,
        Locale::AstEs => "AstEs"@,
        Locale::AzAz => "AzAz"@,
        Locale::BaRu => "BaRu"@,
        Locale::Bar => "Bar"@,
        Locale::BeBy => "BeBy"@,
        Locale::BgBg => "BgBg"@,
        Locale::BrFr => "BrFr"@,
        Locale::Brb => "Brb"@,
        Locale::BsBa => "BsBa"@,
        Locale::CaEs => "CaEs"@,
        Locale::CsCz => "CsCz"@,
        Locale::CyGb => "CyGb"@,
        Locale::DaDk => "DaDk"@,
        Locale::DeAt => "DeAt"@,
        Locale::DeCh => "DeCh"@,
        Locale::DeDe => "DeDe"@,
        Locale::ElGr => "ElGr"@,
        Locale::EnAu => "EnAu"@,
        Locale::EnCa => "EnCa"@,
        Locale::EnGb => "EnGb"@,
        Locale::EnNz => "EnNz"@,
        Locale::EnPt => "EnPt"@,
        Locale::EnUd => "EnUd"@,
        Locale::EnUs => "EnUs"@,
        Locale::Enp => "Enp"@,
        Locale::Enws => "Enws"@,
        Locale::EoUy => "EoUy"@,
        Locale::EsAr => "EsAr"@,
        Locale::EsCl => "EsCl"@,
        Locale::EsEc => "EsEc"@,
        Locale::EsEs => "EsEs"@,
        Locale::EsMx => "EsMx"@,
        Locale::EsUy => "EsUy"@,
        Locale::EsVe => "EsVe"@,
        Locale::Esan => "Esan"@,
        Locale::EtEe => "EtEe"@,
        Locale::EuEs => "EuEs"@,
        Locale::FaIr => "FaIr"@,
        Locale::FiFi => "FiFi"@,
        Locale::FilPh => "FilPh"@,
        Locale::FoFo => "FoFo"@,
        Locale::FrCa => "FrCa"@,
        Locale::FrFr => "FrFr"@,
        Locale::FraDe => "FraDe"@,
        Locale::FurIt => "FurIt"@,
        Locale::FyNl => "FyNl"@,
        Locale::GaIe => "GaIe"@,
        Locale::GdGb => "GdGb"@,
        Locale::GlEs => "GlEs"@,
        Locale::HawUs => "HawUs"@,
        Locale::HeIl => "HeIl"@,
        Locale::HiIn => "HiIn"@,
        Locale::HrHr => "HrHr"@,
        Locale::HuHu => "HuHu"@,
        Locale::HyAm => "HyAm"@,
        Locale::IdId => "IdId"@,
        Locale::IgNg => "IgNg"@,
        Locale::IoEn => "IoEn"@,
        Locale::IsIs => "IsIs"@,
        Locale::Isv => "Isv"@,
        Locale::ItIt => "ItIt"@,
        Locale::JaJp => "JaJp"@,
        Locale::JboEn => "JboEn"@,
        Locale::KaGe => "KaGe"@,
        Locale::KkKz => "KkKz"@,
        Locale::KnIn => "KnIn"@,
        Locale::KoKr => "KoKr"@,
        Locale::Ksh => "Ksh"@,
        Locale::KwGb => "KwGb"@,
        Locale::LaLa => "LaLa"@,
        Locale::LbLu => "LbLu"@,
        Locale::LiLi => "LiLi"@,
        Locale::Lmo => "Lmo"@,
        Locale::LoLa => "LoLa"@,
        Locale::LolUs => "LolUs"@,
        Locale::LtLt => "LtLt"@,
        Locale::LvLv => "LvLv"@,
        Locale::Lzh => "Lzh"@,
        Locale::MkMk => "MkMk"@,
        Locale::MnMn => "MnMn"@,
        Locale::MsMy => "MsMy"@,
        Locale::MtMt => "MtMt"@,
        Locale::Nah => "Nah"@,
        Locale::NdsDe => "NdsDe"@,
        Locale::NlBe => "NlBe"@,
        Locale::NlNl => "NlNl"@,
        Locale::NnNo => "NnNo"@,
        Locale::NoNo => "NoNo"@,
        Locale::OcFr => "OcFr"@,
        Locale::Ovd => "Ovd"@,
        Locale::PlPl => "PlPl"@,
        Locale::PtBr => "PtBr"@,
        Locale::PtPt => "PtPt"@,
        Locale::QyaAa => "QyaAa"@,
        Locale::RoRo => "RoRo"@,
        Locale::Rpr => "Rpr"@,
        Locale::RuRu => "RuRu"@,
        Locale::RyUa => "RyUa"@,
        Locale::SahSah => "SahSah"@,
        Locale::SeNo => "SeNo"@,
        Locale::SkSk => "SkSk"@,
        Locale::SlSi => "SlSi"@,
        Locale::SoSo => "SoSo"@,
        Locale::SqAl => "SqAl"@,
        Locale::SrCs => "SrCs"@,
        Locale::SrSp => "SrSp"@,
        Locale::SvSe => "SvSe"@,
        Locale::Sxu => "Sxu"@,
        Locale::Szl => "Szl"@,
        Locale::TaIn => "TaIn"@,
        Locale::ThTh => "ThTh"@,
        Locale::TlPh => "TlPh"@,
        Locale::TlhAa => "TlhAa"@,
        Locale::Tok => "Tok"@,
        Locale::TrTr => "TrTr"@,
        Locale::TtRu => "TtRu"@,
        Locale::UkUa => "UkUa"@,
        Locale::ValEs => "ValEs"@,
        Locale::VecIt => "VecIt"@,
        Locale::ViVn => "ViVn"@,
        Locale::YiDe => "YiDe"@,
        Locale::YoNg => "YoNg"@,
        Locale::ZhCn => "ZhCn"@,
        Locale::ZhHk => "ZhHk"@,
        Locale::ZhTw => "ZhTw"@,
        Locale::ZlmArab => "ZlmArab"@,
    }
}

/// Each server locale is shown to plugins as the locale of the same name.
pub proof fn lemma_map_util_locale_to_wit_keeps_name(v: ServerLocale)
    ensures
        locale_name(spec_map_util_locale_to_wit(v)) == server_locale_name(v),
{
    match v {
        ServerLocale::AfZa => {},
        ServerLocale::ArSa => {},
        ServerLocale::AstEs => {},
        ServerLocale::AzAz => {},
        ServerLocale::BaRu => {},
        ServerLocale::Bar => {},
        ServerLocale::BeBy => {},
        ServerLocale::BgBg => {},
        ServerLocale::BrFr => {},
        ServerLocale::Brb => {},
        ServerLocale::BsBa => {},
        ServerLocale::CaEs => {},
        ServerLocale::CsCz => {},
        ServerLocale::CyGb => {},
        ServerLocale::DaDk => {},
        ServerLocale::DeAt => {},
        ServerLocale::DeCh => {},
        ServerLocale::DeDe => {},
        ServerLocale::ElGr => {},
        ServerLocale::EnAu => {},
        ServerLocale::EnCa => {},
        ServerLocale::EnGb => {},
        ServerLocale::EnNz => {},
        ServerLocale::EnPt => {},
        ServerLocale::EnUd => {},
        ServerLocale::EnUs => {},
        ServerLocale::Enp => {},
        ServerLocale::Enws => {},
        ServerLocale::EoUy => {},
        ServerLocale::EsAr => {},
        ServerLocale::EsCl => {},
        ServerLocale::EsEc => {},
        ServerLocale::EsEs => {},
        ServerLocale::EsMx => {},
        ServerLocale::EsUy => {},
        ServerLocale::EsVe => {},
        ServerLocale::Esan => {},
        ServerLocale::EtEe => {},
        ServerLocale::EuEs => {},
        ServerLocale::FaIr => {},
        ServerLocale::FiFi => {},
        ServerLocale::FilPh => {},
        ServerLocale::FoFo => {},
        ServerLocale::FrCa => {},
        ServerLocale::FrFr => {},
        ServerLocale::FraDe => {},
        ServerLocale::FurIt => {},
        ServerLocale::FyNl => {},
        ServerLocale::GaIe => {},
        ServerLocale::GdGb => {},
        ServerLocale::GlEs => {},
        ServerLocale::HawUs => {},
        ServerLocale::HeIl => {},
        ServerLocale::HiIn => {},
        ServerLocale::HrHr => {},
        ServerLocale::HuHu => {},
        ServerLocale::HyAm => {},
        ServerLocale::IdId => {},
        ServerLocale::IgNg => {},
        ServerLocale::IoEn => {},
        ServerLocale::IsIs => {},
        ServerLocale::Isv => {},
        ServerLocale::ItIt => {},
        ServerLocale::JaJp => {},
        ServerLocale::JboEn => {},
        ServerLocale::KaGe => {},
        ServerLocale::KkKz => {},
        ServerLocale::KnIn => {},
        ServerLocale::KoKr => {},
        ServerLocale::Ksh => {},
        ServerLocale::KwGb => {},
        ServerLocale::LaLa => {},
        ServerLocale::LbLu => {},
        ServerLocale::LiLi => {},
        ServerLocale::Lmo => {},
        ServerLocale::LoLa => {},
        ServerLocale::LolUs => {},
        ServerLocale::LtLt => {},
        ServerLocale::LvLv => {},
        ServerLocale::Lzh => {},
        ServerLocale::MkMk => {},
        ServerLocale::MnMn => {},
        ServerLocale::MsMy => {},
        ServerLocale::MtMt => {},
        ServerLocale::Nah => {},
        ServerLocale::NdsDe => {},
        ServerLocale::NlBe => {},
        ServerLocale::NlNl => {},
        ServerLocale::NnNo => {},
        ServerLocale::NoNo => {},
        ServerLocale::OcFr => {},
        ServerLocale::Ovd => {},
        ServerLocale::PlPl => {},
        ServerLocale::PtBr => {},
        ServerLocale::PtPt => {},
        ServerLocale::QyaAa => {},
        ServerLocale::RoRo => {},
        ServerLocale::Rpr => {},
        ServerLocale::RuRu => {},
        ServerLocale::RyUa => {},
        ServerLocale::SahSah => {},
        ServerLocale::SeNo => {},
        ServerLocale::SkSk => {},
        ServerLocale::SlSi => {},
        ServerLocale::SoSo => {},
        ServerLocale::SqAl => {},
        ServerLocale::SrCs => {},
        ServerLocale::SrSp => {},
        ServerLocale::SvSe => {},
        ServerLocale::Sxu => {},
        ServerLocale::Szl => {},
        ServerLocale::TaIn => {},
        ServerLocale::ThTh => {},
        ServerLocale::TlPh => {},
        ServerLocale::TlhAa => {},
        ServerLocale::Tok => {},
        ServerLocale::TrTr => {},
        ServerLocale::TtRu => {},
        ServerLocale::UkUa => {},
        ServerLocale::ValEs => {},
        ServerLocale::VecIt => {},
        ServerLocale::ViVn => {},
        ServerLocale::YiDe => {},
        ServerLocale::YoNg => {},
        ServerLocale::ZhCn => {},
        ServerLocale::ZhHk => {},
        ServerLocale::ZhTw => {},
        ServerLocale::ZlmArab => {},
    }
}

} // verus!
