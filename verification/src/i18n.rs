//! The user-interface string table, in English and Chinese.

use vstd::prelude::*;
use vstd::string::StrSliceExecFns;
use vstd::string::StringExecFns;

verus! {

/// A user-interface language.
#[derive(Clone, Copy, Debug, PartialEq, Eq, Structural)]
pub enum Lang {
    /// English.
    En,
    /// Chinese.
    Zh,
}

/// Character-wise string equality.
fn str_eq(a: &str, b: &str) -> (r: bool)
    ensures
        r == (a@ == b@),
{
    let alen = a.unicode_len();
    let blen = b.unicode_len();
    if alen != blen {
        return false;
    }
    let mut i: usize = 0;
    while i < alen
        invariant
            alen == a@.len(),
            alen == b@.len(),
            i <= alen,
            forall|j: int| 0 <= j < i ==> a@[j] == b@[j],
        decreases alen - i,
    {
        if a.get_char(i) != b.get_char(i) {
            return false;
        }
        i = i + 1;
    }
    proof {
        assert(a@ =~= b@);
    }
    true
}

/// The language a locale code selects: the Chinese codes map to
/// Chinese, everything else to English.
pub open spec fn spec_lang_from_code(code: Seq<char>) -> Lang {
    if code == "zh"@ || code == "zh-CN"@ || code == "zh_CN"@ {
        Lang::Zh
    } else {
        Lang::En
    }
}

impl Lang {
    /// Maps a locale code to the language it selects.
    pub fn from_code(code: &str) -> (r: Lang)
        ensures
            r == spec_lang_from_code(code@),
    {
        if str_eq(code, "zh") || str_eq(code, "zh-CN") || str_eq(code, "zh_CN") {
            Lang::Zh
        } else {
            Lang::En
        }
    }
}

/// The string the table holds for a key, per language; an unknown key
/// is returned as it is.
pub open spec fn spec_t(lang: Lang, key: Seq<char>) -> Seq<char> {
    match lang {
        Lang::En => if key == "language"@ {
            "Language"@
        } else if key == "english"@ {
            "English"@
        } else if key == "chinese"@ {
            "Chinese"@
        } else if key == "supported"@ {
            "Your device is supported !"@
        } else if key == "unsupported"@ {
            "Your device is not supported !"@
        } else if key == "logo_enabled"@ {
            "UEFI Logo DIY Enabled"@
        } else if key == "logo_disabled"@ {
            "UEFI Logo DIY Disabled"@
        } else if key == "max_image_size"@ {
            "Max Image Size"@
        } else if key == "supported_formats"@ {
            "Support Format"@
        } else if key == "version"@ {
            "Version"@
        } else if key == "show_windows_loading"@ {
            "Show Windows loading circle"@
        } else if key == "pick_image"@ {
            "Pick Image"@
        } else if key == "picked_image"@ {
            "Picked Image:"@
        } else if key == "change_logo_btn"@ {
            "!!! Change Logo !!!"@
        } else if key == "restore_logo_btn"@ {
            "Restore Logo"@
        } else if key == "setting_logo_wait"@ {
            "Setting logo, please wait..."@
        } else if key == "restoring_logo_wait"@ {
            "Restoring logo, please wait..."@
        } else if key == "change_logo_success"@ {
            "Change logo succeeded, reboot to see the effect"@
        } else if key == "change_logo_failed"@ {
            "Change logo failed"@
        } else if key == "restore_logo_success"@ {
            "Restore Logo Success"@
        } else if key == "restore_logo_failed"@ {
            "Restore Logo Failed"@
        } else if key == "admin_required"@ {
            "You need to run this program as Administrator !"@
        } else {
            key
        },
        Lang::Zh => if key == "language"@ {
            "语言"@
        } else if key == "english"@ {
            "英语"@
        } else if key == "chinese"@ {
            "中文"@
        } else if key == "supported"@ {
            "您的设备是支持的！"@
        } else if key == "unsupported"@ {
            "不支持您的设备！"@
        } else if key == "logo_enabled"@ {
            "自定义UEFI Logo已启用"@
        } else if key == "logo_disabled"@ {
            "自定义UEFI Logo未启用"@
        } else if key == "max_image_size"@ {
            "图片最大分辨率"@
        } else if key == "supported_formats"@ {
            "支持的图片格式"@
        } else if key == "version"@ {
            "协议版本"@
        } else if key == "show_windows_loading"@ {
            "显示Windows加载图标"@
        } else if key == "pick_image"@ {
            "选择图片"@
        } else if key == "picked_image"@ {
            "已选择的图片："@
        } else if key == "change_logo_btn"@ {
            "!!! 设置Logo !!! "@
        } else if key == "restore_logo_btn"@ {
            "恢复Logo"@
        } else if key == "setting_logo_wait"@ {
            "正在设置Logo，请稍候..."@
        } else if key == "restoring_logo_wait"@ {
            "正在恢复Logo，请稍候..."@
        } else if key == "change_logo_success"@ {
            "设置Logo成功，重新启动以查看效果"@
        } else if key == "change_logo_failed"@ {
            "设置Logo失败"@
        } else if key == "restore_logo_success"@ {
            "恢复Logo成功"@
        } else if key == "restore_logo_failed"@ {
            "恢复Logo失败"@
        } else if key == "admin_required"@ {
            "您需要以管理员权限运行此程序！"@
        } else {
            key
        },
    }
}

/// Looks a key up in the string table of the given language; an
/// unknown key is echoed back.
pub fn t(lang: Lang, key: &str) -> (r: String)
    ensures
        r@ == spec_t(lang, key@),
{
    match lang {
        Lang::En => {
            if str_eq(key, "language") {
                String::from_str("Language")
            } else if str_eq(key, "english") {
                String::from_str("English")
            } else if str_eq(key, "chinese") {
                String::from_str("Chinese")
            } else if str_eq(key, "supported") {
                String::from_str("Your device is supported !")
            } else if str_eq(key, "unsupported") {
                String::from_str("Your device is not supported !")
            } else if str_eq(key, "logo_enabled") {
                String::from_str("UEFI Logo DIY Enabled")
            } else if str_eq(key, "logo_disabled") {
                String::from_str("UEFI Logo DIY Disabled")
            } else if str_eq(key, "max_image_size") {
                String::from_str("Max Image Size")
            } else if str_eq(key, "supported_formats") {
                String::from_str("Support Format")
            } else if str_eq(key, "version") {
                String::from_str("Version")
            } else if str_eq(key, "show_windows_loading") {
                String::from_str("Show Windows loading circle")
            } else if str_eq(key, "pick_image") {
                String::from_str("Pick Image")
            } else if str_eq(key, "picked_image") {
                String::from_str("Picked Image:")
            } else if str_eq(key, "change_logo_btn") {
                String::from_str("!!! Change Logo !!!")
            } else if str_eq(key, "restore_logo_btn") {
                String::from_str("Restore Logo")
            } else if str_eq(key, "setting_logo_wait") {
                String::from_str("Setting logo, please wait...")
            } else if str_eq(key, "restoring_logo_wait") {
                String::from_str("Restoring logo, please wait...")
            } else if str_eq(key, "change_logo_success") {
                String::from_str("Change logo succeeded, reboot to see the effect")
            } else if str_eq(key, "change_logo_failed") {
                String::from_str("Change logo failed")
            } else if str_eq(key, "restore_logo_success") {
                String::from_str("Restore Logo Success")
            } else if str_eq(key, "restore_logo_failed") {
                String::from_str("Restore Logo Failed")
            } else if str_eq(key, "admin_required") {
                String::from_str("You need to run this program as Administrator !")
            } else {
                String::from_str(key)
            }
        },
        Lang::Zh => {
            if str_eq(key, "language") {
                String::from_str("语言")
            } else if str_eq(key, "english") {
                String::from_str("英语")
            } else if str_eq(key, "chinese") {
                String::from_str("中文")
            } else if str_eq(key, "supported") {
                String::from_str("您的设备是支持的！")
            } else if str_eq(key, "unsupported") {
                String::from_str("不支持您的设备！")
            } else if str_eq(key, "logo_enabled") {
                String::from_str("自定义UEFI Logo已启用")
            } else if str_eq(key, "logo_disabled") {
                String::from_str("自定义UEFI Logo未启用")
            } else if str_eq(key, "max_image_size") {
                String::from_str("图片最大分辨率")
            } else if str_eq(key, "supported_formats") {
                String::from_str("支持的图片格式")
            } else if str_eq(key, "version") {
                String::from_str("协议版本")
            } else if str_eq(key, "show_windows_loading") {
                String::from_str("显示Windows加载图标")
            } else if str_eq(key, "pick_image") {
                String::from_str("选择图片")
            } else if str_eq(key, "picked_image") {
                String::from_str("已选择的图片：")
            } else if str_eq(key, "change_logo_btn") {
                String::from_str("!!! 设置Logo !!! ")
            } else if str_eq(key, "restore_logo_btn") {
                String::from_str("恢复Logo")
            } else if str_eq(key, "setting_logo_wait") {
                String::from_str("正在设置Logo，请稍候...")
            } else if str_eq(key, "restoring_logo_wait") {
                String::from_str("正在恢复Logo，请稍候...")
            } else if str_eq(key, "change_logo_success") {
                String::from_str("设置Logo成功，重新启动以查看效果")
            } else if str_eq(key, "change_logo_failed") {
                String::from_str("设置Logo失败")
            } else if str_eq(key, "restore_logo_success") {
                String::from_str("恢复Logo成功")
            } else if str_eq(key, "restore_logo_failed") {
                String::from_str("恢复Logo失败")
            } else if str_eq(key, "admin_required") {
                String::from_str("您需要以管理员权限运行此程序！")
            } else {
                String::from_str(key)
            }
        },
    }
}

} // verus!
