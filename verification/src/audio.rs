//! Audio catalog: sound-effect definitions only (no playback).
//!
//! A stable set of sound-effect ids, their asset filenames (relative to
//! `assets/audio/`), descriptions and intended triggers, so widget authors can
//! refer to a sound by a type-safe [`Sound`] handle.

use vstd::prelude::*;

verus! {

/// A catalogued sound effect.
#[derive(Debug, Clone, Copy, PartialEq, Eq)]
pub struct SoundSpec {
    /// Stable id (snake case).
    pub id: &'static str,
    /// Asset filename under `assets/audio/`.
    pub filename: &'static str,
    /// Human description of the sonic character.
    pub description: &'static str,
    /// When it should fire (UI binding).
    pub trigger: &'static str,
    /// `true` for ambient loops; `false` for one-shots.
    pub looped: bool,
}

/// Type-safe handle to a catalogued sound effect.
#[derive(Debug, Clone, Copy, PartialEq, Eq)]
pub enum Sound {
    AmbientHum,
    RadarEcho,
    UiTick,
    KeyboardClack,
    UiConfirm,
    AlertSiren,
}

/// The id of each sound.
pub open spec fn sound_id(s: Sound) -> Seq<char> {
    match s {
        Sound::AmbientHum => "ambient_hum"@,
        Sound::RadarEcho => "radar_echo"@,
        Sound::UiTick => "ui_tick"@,
        Sound::KeyboardClack => "keyboard_clack"@,
        Sound::UiConfirm => "ui_confirm"@,
        Sound::AlertSiren => "alert_siren"@,
    }
}

/// The asset filename of each sound: its id followed by `.wav`.
pub open spec fn sound_filename(s: Sound) -> Seq<char> {
    match s {
        Sound::AmbientHum => "ambient_hum.wav"@,
        Sound::RadarEcho => "radar_echo.wav"@,
        Sound::UiTick => "ui_tick.wav"@,
        Sound::KeyboardClack => "keyboard_clack.wav"@,
        Sound::UiConfirm => "ui_confirm.wav"@,
        Sound::AlertSiren => "alert_siren.wav"@,
    }
}

/// Whether each sound is an ambient loop.
pub open spec fn sound_looped(s: Sound) -> bool {
    match s {
        Sound::AmbientHum => true,
        Sound::RadarEcho => false,
        Sound::UiTick => false,
        Sound::KeyboardClack => false,
        Sound::UiConfirm => false,
        Sound::AlertSiren => false,
    }
}

/// Every sound, grouped ambient loops, then UI feedback, then alerts.
pub open spec fn all_sounds() -> Seq<Sound> {
    seq![Sound::AmbientHum, Sound::RadarEcho, Sound::UiTick, Sound::KeyboardClack, Sound::UiConfirm, Sound::AlertSiren]
}

impl Sound {
    /// The catalog entry for this sound.
    pub fn spec(self) -> (r: SoundSpec)
        ensures
            r.id@ == sound_id(self),
            r.filename@ == sound_filename(self),
            r.looped == sound_looped(self),
    {
        match self {
        Sound::AmbientHum => SoundSpec {
                    id: "ambient_hum",
                    filename: "ambient_hum.wav",
                    description: "低频电流/风扇持续底噪,模拟飞船控制台长期开机",
                    trigger: "进入主界面时循环",
                    looped: true,
                },
                Sound::RadarEcho => SoundSpec {
                    id: "radar_echo",
                    filename: "radar_echo.wav",
                    description: "雷达每转一圈的低沉回音「嗵——」",
                    trigger: "雷达扫描线完成一周",
                    looped: false,
                },
                Sound::UiTick => SoundSpec {
                    id: "ui_tick",
                    filename: "ui_tick.wav",
                    description: "光标在选项间移动的短促清脆电子音",
                    trigger: "Up/Down 切换菜单",
                    looped: false,
                },
                Sound::KeyboardClack => SoundSpec {
                    id: "keyboard_clack",
                    filename: "keyboard_clack.wav",
                    description: "复古机械键盘磁性哒哒声",
                    trigger: "文本输入逐字符",
                    looped: false,
                },
                Sound::UiConfirm => SoundSpec {
                    id: "ui_confirm",
                    filename: "ui_confirm.wav",
                    description: "类似《星际迷航》电脑的确认合成音",
                    trigger: "Enter / 按钮确认",
                    looped: false,
                },
                Sound::AlertSiren => SoundSpec {
                    id: "alert_siren",
                    filename: "alert_siren.wav",
                    description: "持续低频脉冲警报",
                    trigger: "Error 日志 / 警告弹窗",
                    looped: false,
                },
        }
    }

    /// Asset filename under `assets/audio/`.
    pub fn filename(self) -> (r: &'static str)
        ensures
            r@ == sound_filename(self),
    {
        self.spec().filename
    }
}

/// The full catalog, in [`all_sounds`] order.
pub fn catalog() -> (v: Vec<SoundSpec>)
    ensures
        v.len() == all_sounds().len(),
        forall|i: int|
            0 <= i < v.len() ==> {
                &&& (#[trigger] v[i]).id@ == sound_id(all_sounds()[i])
                &&& v[i].filename@ == sound_filename(all_sounds()[i])
                &&& v[i].looped == sound_looped(all_sounds()[i])
            },
{
    vec![Sound::AmbientHum.spec(), Sound::RadarEcho.spec(), Sound::UiTick.spec(), Sound::KeyboardClack.spec(), Sound::UiConfirm.spec(), Sound::AlertSiren.spec()]
}

/// The catalog is unique: two different sounds never share an id or an asset
/// filename.
pub proof fn lemma_catalog_unique(a: Sound, b: Sound)
    requires
        a != b,
    ensures
        sound_id(a) != sound_id(b),
        sound_filename(a) != sound_filename(b),
{
    reveal_strlit("ambient_hum");
    reveal_strlit("ambient_hum.wav");
    reveal_strlit("radar_echo");
    reveal_strlit("radar_echo.wav");
    reveal_strlit("ui_tick");
    reveal_strlit("ui_tick.wav");
    reveal_strlit("keyboard_clack");
    reveal_strlit("keyboard_clack.wav");
    reveal_strlit("ui_confirm");
    reveal_strlit("ui_confirm.wav");
    reveal_strlit("alert_siren");
    reveal_strlit("alert_siren.wav");
    assert(sound_id(a).len() != sound_id(b).len() || sound_id(a)[0] != sound_id(b)[0]
        || sound_id(a)[1] != sound_id(b)[1]);
    assert(sound_filename(a).len() != sound_filename(b).len() || sound_filename(a)[0]
        != sound_filename(b)[0] || sound_filename(a)[1] != sound_filename(b)[1]);
}

/// Every asset filename is the sound's id followed by `.wav`.
pub proof fn lemma_filename_is_id_wav(s: Sound)
    ensures
        sound_filename(s) == sound_id(s) + ".wav"@,
{
    reveal_strlit("ambient_hum");
    reveal_strlit("ambient_hum.wav");
    reveal_strlit("radar_echo");
    reveal_strlit("radar_echo.wav");
    reveal_strlit("ui_tick");
    reveal_strlit("ui_tick.wav");
    reveal_strlit("keyboard_clack");
    reveal_strlit("keyboard_clack.wav");
    reveal_strlit("ui_confirm");
    reveal_strlit("ui_confirm.wav");
    reveal_strlit("alert_siren");
    reveal_strlit("alert_siren.wav");
    reveal_strlit(".wav");
    assert(sound_filename(s) =~= sound_id(s) + ".wav"@);
}

} // verus!
