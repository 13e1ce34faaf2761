//! Settings that the page changes.

use vstd::prelude::*;

use crate::text::{chars_of, same_text};

verus! {

/// What a page's setting asks of the configuration.
#[derive(Debug)]
pub enum SettingChange {
    WindowDecorations(Option<String>),
    /// A decoder mode, which may turn out not to be one.
    Hwdec(String),
    AudioPassthrough(String),
    AudioExclusive(bool),
    AudioChannels(String),
    TransparentTitlebar(bool),
    HideScrollbar(bool),
    LogLevel(String),
    ForceTranscoding(bool),
    DeviceName(String),
    /// No setting has this key.
    Unknown,
    /// The setting takes a value, and there was none.
    MissingValue,
}

/// What a setting's key and value ask for.
pub open spec fn change_of(key: Seq<char>, value: Option<Seq<char>>, change: SettingChange) -> bool {
    if key == "windowDecorations"@ {
        change matches SettingChange::WindowDecorations(v) && (match v {
            Some(t) => value == Some(t@),
            None => value is None,
        })
    } else {
        match value {
            None => change is MissingValue,
            Some(v) => if key == "hwdec"@ {
                change matches SettingChange::Hwdec(t) && t@ == v
            } else if key == "audioPassthrough"@ {
                change matches SettingChange::AudioPassthrough(t) && t@ == v
            } else if key == "audioExclusive"@ {
                change == SettingChange::AudioExclusive(v == "true"@)
            } else if key == "audioChannels"@ {
                change matches SettingChange::AudioChannels(t) && t@ == v
            } else if key == "transparentTitlebar"@ {
                change == SettingChange::TransparentTitlebar(v == "true"@)
            } else if key == "hideScrollbar"@ {
                change == SettingChange::HideScrollbar(v == "true"@)
            } else if key == "logLevel"@ {
                change matches SettingChange::LogLevel(t) && t@ == v
            } else if key == "forceTranscoding"@ {
                change == SettingChange::ForceTranscoding(v == "true"@)
            } else if key == "deviceName"@ {
                change matches SettingChange::DeviceName(t) && t@ == v
            } else {
                change is Unknown
            },
        }
    }
}

pub open spec fn optional_text(value: Option<&str>) -> Option<Seq<char>> {
    match value {
        Some(v) => Some(v@),
        None => None,
    }
}

/// Reads a setting. The second value tells whether the configuration is saved
/// afterwards: always, but where a value was missing.
pub fn apply_setting_value(key: &str, value: Option<&str>) -> (r: (SettingChange, bool))
    ensures
        change_of(key@, optional_text(value), r.0),
        r.1 == !(r.0 is MissingValue),
{
    if same_text(key, "windowDecorations") {
        let decorations: Option<String> = match value {
            Some(v) => Some(v.to_owned()),
            None => None,
        };
        return (SettingChange::WindowDecorations(decorations), true);
    }
    let value: &str = match value {
        None => return (SettingChange::MissingValue, false),
        Some(v) => v,
    };
    let on = same_text(value, "true");
    let change = if same_text(key, "hwdec") {
        SettingChange::Hwdec(value.to_owned())
    } else if same_text(key, "audioPassthrough") {
        SettingChange::AudioPassthrough(value.to_owned())
    } else if same_text(key, "audioExclusive") {
        SettingChange::AudioExclusive(on)
    } else if same_text(key, "audioChannels") {
        SettingChange::AudioChannels(value.to_owned())
    } else if same_text(key, "transparentTitlebar") {
        SettingChange::TransparentTitlebar(on)
    } else if same_text(key, "hideScrollbar") {
        SettingChange::HideScrollbar(on)
    } else if same_text(key, "logLevel") {
        SettingChange::LogLevel(value.to_owned())
    } else if same_text(key, "forceTranscoding") {
        SettingChange::ForceTranscoding(on)
    } else if same_text(key, "deviceName") {
        SettingChange::DeviceName(value.to_owned())
    } else {
        SettingChange::Unknown
    };
    (change, true)
}

/// A text that can be handed to the page as a C string: none of its characters
/// is a NUL.
pub open spec fn c_text(s: Seq<char>) -> bool {
    forall|i: int| 0 <= i < s.len() ==> #[trigger] s[i] != '\0'
}

pub fn js_text_accepted(s: &str) -> (r: bool)
    ensures
        r == c_text(s@),
{
    let v: Vec<char> = chars_of(s);
    let mut i: usize = 0;
    while i < v.len()
        invariant
            i <= v@.len(),
            v@ == s@,
            forall|j: int| 0 <= j < i ==> #[trigger] v@[j] != '\0',
        decreases v@.len() - i,
    {
        if v[i] == '\0' {
            assert(s@[i as int] == '\0');
            return false;
        }
        i += 1;
    }
    true
}

/// A change is made by its own key alone, and takes the value as it was given;
/// a switch is on where the value says `true`, and off for any other.
pub proof fn changes_are_made_by_their_own_key(
    key: Seq<char>,
    value: Option<Seq<char>>,
    change: SettingChange,
)
    requires
        change_of(key, value, change),
    ensures
        match change {
            SettingChange::WindowDecorations(v) => key == "windowDecorations"@ && (v matches Some(
                t,
            ) ==> value == Some(t@)) && (v is None ==> value is None),
            SettingChange::Hwdec(t) => key == "hwdec"@ && value == Some(t@),
            SettingChange::AudioPassthrough(t) => key == "audioPassthrough"@ && value == Some(t@),
            SettingChange::AudioExclusive(on) => key == "audioExclusive"@ && (on <==> value == Some(
                "true"@,
            )),
            SettingChange::AudioChannels(t) => key == "audioChannels"@ && value == Some(t@),
            SettingChange::TransparentTitlebar(on) => key == "transparentTitlebar"@ && (on
                <==> value == Some("true"@)),
            SettingChange::HideScrollbar(on) => key == "hideScrollbar"@ && (on <==> value == Some(
                "true"@,
            )),
            SettingChange::LogLevel(t) => key == "logLevel"@ && value == Some(t@),
            SettingChange::ForceTranscoding(on) => key == "forceTranscoding"@ && (on <==> value
                == Some("true"@)),
            SettingChange::DeviceName(t) => key == "deviceName"@ && value == Some(t@),
            SettingChange::Unknown => value is Some,
            SettingChange::MissingValue => value is None && key != "windowDecorations"@,
        },
{
}

/// Every known key makes its change: none of them is taken for another's, or
/// for no setting at all.
pub proof fn known_keys_are_known(key: Seq<char>, value: Seq<char>, change: SettingChange)
    requires
        change_of(key, Some(value), change),
    ensures
        key == "windowDecorations"@ ==> change is WindowDecorations,
        key == "hwdec"@ ==> change is Hwdec,
        key == "audioPassthrough"@ ==> change is AudioPassthrough,
        key == "audioExclusive"@ ==> change is AudioExclusive,
        key == "audioChannels"@ ==> change is AudioChannels,
        key == "transparentTitlebar"@ ==> change is TransparentTitlebar,
        key == "hideScrollbar"@ ==> change is HideScrollbar,
        key == "logLevel"@ ==> change is LogLevel,
        key == "forceTranscoding"@ ==> change is ForceTranscoding,
        key == "deviceName"@ ==> change is DeviceName,
{
    reveal_strlit("windowDecorations");
    reveal_strlit("hwdec");
    reveal_strlit("audioPassthrough");
    reveal_strlit("audioExclusive");
    reveal_strlit("audioChannels");
    reveal_strlit("transparentTitlebar");
    reveal_strlit("hideScrollbar");
    reveal_strlit("logLevel");
    reveal_strlit("forceTranscoding");
    reveal_strlit("deviceName");
    let keys = seq![
        "windowDecorations"@,
        "hwdec"@,
        "audioPassthrough"@,
        "audioExclusive"@,
        "audioChannels"@,
        "transparentTitlebar"@,
        "hideScrollbar"@,
        "logLevel"@,
        "forceTranscoding"@,
        "deviceName"@,
    ];
    // The keys differ in length, or in one of their first six characters.
    assert(keys[3][5] != keys[4][5] && keys[3].len() != keys[4].len());
    assert(keys[4][5] != keys[6][5]);
    assert(keys[3].len() == 14 && keys[4].len() == 13 && keys[6].len() == 13 && keys[0].len()
        == 17 && keys[1].len() == 5 && keys[2].len() == 16 && keys[5].len() == 19 && keys[7].len()
        == 8 && keys[8].len() == 16 && keys[9].len() == 10);
    assert(keys[2][0] != keys[8][0]);
    assert(keys[4][0] != keys[6][0]);
}

/// A text with a NUL anywhere in it is refused, and every other one is taken.
pub proof fn texts_without_nul_are_taken(a: Seq<char>, b: Seq<char>)
    ensures
        !c_text(a + seq!['\0'] + b),
        c_text(a) && c_text(b) ==> c_text(a + b),
        c_text(seq![]),
        forall|c: char| c != '\0' ==> c_text(#[trigger] seq![c]),
{
    let s = a + seq!['\0'] + b;
    assert(s[a.len() as int] == '\0');
}

/// A value is read as it was given.
pub proof fn values_are_read_as_given(value: &str)
    ensures
        optional_text(Some(value)) == Some(value@),
        optional_text(None) is None,
{
}

/// A setting counts as changed unless its value was missing, and only the
/// decorations can do without one.
pub proof fn settings_need_their_value(
    key: &str,
    value: &str,
    given: (SettingChange, bool),
    missing: (SettingChange, bool),
)
    requires
        call_ensures(apply_setting_value, (key, Some(value)), given),
        call_ensures(apply_setting_value, (key, None), missing),
    ensures
        given.1,
        missing.1 <==> key@ == "windowDecorations"@,
        missing.1 <==> !(missing.0 is MissingValue),
        given.0 matches SettingChange::WindowDecorations(v) ==> (v matches Some(t) && t@
            == value@),
        given.0 matches SettingChange::Hwdec(t) ==> t@ == value@,
        given.0 matches SettingChange::DeviceName(t) ==> t@ == value@,
{
}

} // verus!
