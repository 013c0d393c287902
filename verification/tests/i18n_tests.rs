use lenlogo::i18n::t;
use lenlogo::i18n::Lang;

#[test]
fn language_from_locale_code() {
    assert_eq!(Lang::from_code("zh"), Lang::Zh);
    assert_eq!(Lang::from_code("zh-CN"), Lang::Zh);
    assert_eq!(Lang::from_code("zh_CN"), Lang::Zh);
    assert_eq!(Lang::from_code("en"), Lang::En);
    assert_eq!(Lang::from_code(""), Lang::En);
    assert_eq!(Lang::from_code("fr"), Lang::En);
}

#[test]
fn english_table() {
    assert_eq!(t(Lang::En, "language"), "Language");
    assert_eq!(t(Lang::En, "supported"), "Your device is supported !");
    assert_eq!(t(Lang::En, "logo_enabled"), "UEFI Logo DIY Enabled");
    assert_eq!(t(Lang::En, "restore_logo_success"), "Restore Logo Success");
    assert_eq!(
        t(Lang::En, "admin_required"),
        "You need to run this program as Administrator !"
    );
}

#[test]
fn chinese_table() {
    assert_eq!(t(Lang::Zh, "language"), "语言");
    assert_eq!(t(Lang::Zh, "supported"), "您的设备是支持的！");
    assert_eq!(t(Lang::Zh, "restore_logo_failed"), "恢复Logo失败");
}

#[test]
fn unknown_key_is_echoed() {
    assert_eq!(t(Lang::En, "no_such_key"), "no_such_key");
    assert_eq!(t(Lang::Zh, "no_such_key"), "no_such_key");
}
