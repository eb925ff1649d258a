use pumpkin_wasm_host::locale::{Locale, ServerLocale, map_util_locale_to_wit};

#[test]
fn locales_keep_their_names() {
    assert!(matches!(map_util_locale_to_wit(ServerLocale::AfZa), Locale::AfZa));
    assert!(matches!(map_util_locale_to_wit(ServerLocale::EnUs), Locale::EnUs));
    assert!(matches!(map_util_locale_to_wit(ServerLocale::DeCh), Locale::DeCh));
}
