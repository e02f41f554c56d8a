use vstd::prelude::*;
use vstd::string::*;
use crate::text::{eq_str, replace_all, replaced, trim, trimmed};

verus! {

pub open spec fn opt_view(o: Option<String>) -> Option<Seq<char>> {
    match o {
        Some(s) => Some(s@),
        None => None,
    }
}

pub fn clone_opt(o: &Option<String>) -> (r: Option<String>)
    ensures
        r == *o,
{
    match o {
        Some(s) => Some(s.clone()),
        None => None,
    }
}

/// What one friend's notifications look like.
#[derive(Debug, Clone)]
pub struct FriendSettings {
    pub enabled: bool,
    pub use_override: bool,
    pub message_override: Option<String>,
    pub sound_override: Option<String>,
}

impl FriendSettings {
    pub fn duplicate(&self) -> (r: Self)
        ensures
            r == *self,
    {
        FriendSettings {
            enabled: self.enabled,
            use_override: self.use_override,
            message_override: clone_opt(&self.message_override),
            sound_override: clone_opt(&self.sound_override),
        }
    }
}

impl Default for FriendSettings {
    fn default() -> (r: Self)
        ensures
            r.enabled,
            !r.use_override,
            r.message_override is None,
            r.sound_override is None,
    {
        FriendSettings {
            enabled: true,
            use_override: false,
            message_override: None,
            sound_override: None,
        }
    }
}

/// The global notification defaults and the settings of each friend, keyed by friend id.
#[derive(Debug, Clone)]
pub struct AppSettings {
    pub default_message: String,
    pub default_sound: Option<String>,
    pub friend_settings: Vec<(String, FriendSettings)>,
}

impl Default for AppSettings {
    fn default() -> (r: Self)
        ensures
            r.default_message@ == "{name} is online"@,
            r.default_sound is None,
            r.friend_settings@.len() == 0,
    {
        AppSettings {
            default_message: String::from_str("{name} is online"),
            default_sound: None,
            friend_settings: Vec::new(),
        }
    }
}

/// The settings stored for friend `id`: the first entry under that key.
pub open spec fn friend_entry(entries: Seq<(String, FriendSettings)>, id: Seq<char>) -> Option<
    FriendSettings,
>
    decreases entries.len(),
{
    if entries.len() == 0 {
        None
    } else if entries[0].0@ == id {
        Some(entries[0].1)
    } else {
        friend_entry(entries.drop_first(), id)
    }
}

pub open spec fn deref_opt(o: Option<&FriendSettings>) -> Option<FriendSettings> {
    match o {
        Some(p) => Some(*p),
        None => None,
    }
}

impl AppSettings {
    pub fn friend_settings_of(&self, friend_id: &str) -> (r: Option<&FriendSettings>)
        ensures
            deref_opt(r) == friend_entry(self.friend_settings@, friend_id@),
    {
        let n = self.friend_settings.len();
        let mut i: usize = 0;
        assert(self.friend_settings@.subrange(0, n as int) == self.friend_settings@);
        while i < n
            invariant
                i <= n,
                n == self.friend_settings@.len(),
                friend_entry(self.friend_settings@, friend_id@) == friend_entry(
                    self.friend_settings@.subrange(i as int, n as int),
                    friend_id@,
                ),
            decreases n - i,
        {
            let ghost rest = self.friend_settings@.subrange(i as int, n as int);
            assert(rest[0] == self.friend_settings@[i as int]);
            if eq_str(self.friend_settings[i].0.as_str(), friend_id) {
                return Some(&self.friend_settings[i].1);
            }
            assert(rest.drop_first() == self.friend_settings@.subrange(i + 1, n as int));
            i = i + 1;
        }
        None
    }
}

/// A notification is suppressed when the friend's settings exist and are disabled.
pub open spec fn suppressed(pref: Option<FriendSettings>) -> bool {
    match pref {
        Some(p) => !p.enabled,
        None => false,
    }
}

/// The message template in force: the friend's override where it is switched on and not
/// empty, else the default.
pub open spec fn template_for(default: Seq<char>, pref: Option<FriendSettings>) -> Seq<char> {
    match pref {
        Some(p) => match p.message_override {
            Some(t) => if p.use_override && t@.len() > 0 {
                t@
            } else {
                default
            },
            None => default,
        },
        None => default,
    }
}

/// The sound in force, chosen as `template_for` chooses the template.
pub open spec fn sound_for(default: Option<Seq<char>>, pref: Option<FriendSettings>) -> Option<
    Seq<char>,
> {
    match pref {
        Some(p) => match p.sound_override {
            Some(s) => if p.use_override && s@.len() > 0 {
                Some(s@)
            } else {
                default
            },
            None => default,
        },
        None => default,
    }
}

/// The message for `name`: the trimmed template with both name placeholders replaced, or
/// nothing where the template is blank.
pub open spec fn formatted(template: Seq<char>, name: Seq<char>) -> Seq<char> {
    if trimmed(template).len() == 0 {
        Seq::empty()
    } else {
        replaced(replaced(trimmed(template), "{name}"@, name), "{displayName}"@, name)
    }
}

pub fn format_message(template: &str, display_name: &str) -> (r: String)
    ensures
        r@ == formatted(template@, display_name@),
{
    let t = trim(template);
    if t.unicode_len() == 0 {
        return String::new();
    }
    proof {
        reveal_strlit("{name}");
        reveal_strlit("{displayName}");
    }
    let once = replace_all(t, "{name}", display_name);
    replace_all(once.as_str(), "{displayName}", display_name)
}

/// The template in force for a friend's settings, where they are not suppressed.
fn pick_template(default: &String, pref: Option<&FriendSettings>) -> (r: String)
    ensures
        r@ == template_for(default@, deref_opt(pref)),
{
    if let Some(p) = pref {
        if let Some(t) = &p.message_override {
            if p.use_override && t.as_str().unicode_len() > 0 {
                return t.clone();
            }
        }
    }
    default.clone()
}

fn pick_sound(default: &Option<String>, pref: Option<&FriendSettings>) -> (r: Option<String>)
    ensures
        opt_view(r) == sound_for(opt_view(*default), deref_opt(pref)),
{
    if let Some(p) = pref {
        if let Some(s) = &p.sound_override {
            if p.use_override && s.as_str().unicode_len() > 0 {
                return Some(s.clone());
            }
        }
    }
    clone_opt(default)
}

/// A notification ready to show: its message and the sound to play, if any.
#[derive(Debug, Clone)]
pub struct Notice {
    pub message: String,
    pub sound: Option<String>,
}

/// The notification for a friend named `display_name`, from the defaults and the friend's
/// own settings; `None` where the friend's notifications are switched off.
pub fn resolve(
    display_name: &str,
    default_template: &String,
    default_sound: &Option<String>,
    pref: Option<&FriendSettings>,
) -> (r: Option<Notice>)
    ensures
        r is None <==> suppressed(deref_opt(pref)),
        r matches Some(n) ==> n.message@ == formatted(
            template_for(default_template@, deref_opt(pref)),
            display_name@,
        ) && opt_view(n.sound) == sound_for(opt_view(*default_sound), deref_opt(pref)),
{
    if let Some(p) = pref {
        if !p.enabled {
            return None;
        }
    }
    let template = pick_template(default_template, pref);
    let message = format_message(template.as_str(), display_name);
    Some(Notice { message, sound: pick_sound(default_sound, pref) })
}

/// The settings stored for `friend_id`, where there is one.
pub open spec fn pref_for(settings: AppSettings, friend_id: Option<Seq<char>>) -> Option<
    FriendSettings,
> {
    match friend_id {
        Some(id) => friend_entry(settings.friend_settings@, id),
        None => None,
    }
}

pub open spec fn opt_str_view(o: Option<&str>) -> Option<Seq<char>> {
    match o {
        Some(s) => Some(s@),
        None => None,
    }
}

/// The template and sound for a friend from the stored settings, or `None` where that
/// friend's notifications are switched off.
pub fn resolve_settings(settings: &AppSettings, friend_id: Option<&str>) -> (r: Option<
    (String, Option<String>),
>)
    ensures
        r is None <==> suppressed(pref_for(*settings, opt_str_view(friend_id))),
        r matches Some(v) ==> v.0@ == template_for(
            settings.default_message@,
            pref_for(*settings, opt_str_view(friend_id)),
        ) && opt_view(v.1) == sound_for(
            opt_view(settings.default_sound),
            pref_for(*settings, opt_str_view(friend_id)),
        ),
{
    let pref = match friend_id {
        Some(id) => settings.friend_settings_of(id),
        None => None,
    };
    if let Some(p) = pref {
        if !p.enabled {
            return None;
        }
    }
    Some((pick_template(&settings.default_message, pref), pick_sound(&settings.default_sound, pref)))
}

/// `Some` of the trimmed text, or `None` where nothing is left of it.
pub open spec fn normalized(value: Seq<char>) -> Option<Seq<char>> {
    if trimmed(value).len() == 0 {
        None
    } else {
        Some(trimmed(value))
    }
}

pub fn normalize_optional(value: String) -> (r: Option<String>)
    ensures
        opt_view(r) == normalized(value@),
{
    let t = trim(value.as_str());
    if t.unicode_len() == 0 {
        None
    } else {
        Some(String::from_str(t))
    }
}

/// What a toast for a friend coming online shows.
#[derive(Debug, Clone)]
pub struct FriendOnlinePayload {
    pub display_name: String,
    pub title: String,
    pub body: String,
    pub image_url: Option<String>,
}

impl FriendOnlinePayload {
    pub fn new(display_name: &str, image_url: Option<String>, body: String) -> (r: Self)
        ensures
            r.display_name@ == display_name@,
            r.title@ == "Friend Online"@,
            r.body == body,
            r.image_url == image_url,
    {
        FriendOnlinePayload {
            display_name: String::from_str(display_name),
            title: String::from_str("Friend Online"),
            body,
            image_url,
        }
    }
}

/// The toast and the sound for a friend who came online, or `None` where that friend's
/// notifications are switched off.
pub fn friend_online_payload(
    settings: &AppSettings,
    friend_id: Option<&str>,
    display_name: &str,
    image_url: Option<String>,
) -> (r: Option<(FriendOnlinePayload, Option<String>)>)
    ensures
        r is None <==> suppressed(pref_for(*settings, opt_str_view(friend_id))),
        r matches Some(v) ==> {
            &&& v.0.display_name@ == display_name@
            &&& v.0.title@ == "Friend Online"@
            &&& v.0.body@ == formatted(
                template_for(settings.default_message@, pref_for(*settings, opt_str_view(friend_id))),
                display_name@,
            )
            &&& v.0.image_url == image_url
            &&& opt_view(v.1) == sound_for(
                opt_view(settings.default_sound),
                pref_for(*settings, opt_str_view(friend_id)),
            )
        },
{
    match resolve_settings(settings, friend_id) {
        None => None,
        Some((template, sound)) => {
            let body = format_message(template.as_str(), display_name);
            Some((FriendOnlinePayload::new(display_name, image_url, body), sound))
        },
    }
}

/// `a` and `b` hold the same settings.
pub open spec fn same_settings(a: AppSettings, b: AppSettings) -> bool {
    &&& a.default_message == b.default_message
    &&& a.default_sound == b.default_sound
    &&& a.friend_settings@ == b.friend_settings@
}

impl AppSettings {
    pub fn duplicate(&self) -> (r: Self)
        ensures
            same_settings(r, *self),
    {
        let mut friends: Vec<(String, FriendSettings)> = Vec::new();
        let n = self.friend_settings.len();
        let mut i: usize = 0;
        while i < n
            invariant
                i <= n,
                n == self.friend_settings@.len(),
                friends@ == self.friend_settings@.subrange(0, i as int),
            decreases n - i,
        {
            friends.push((self.friend_settings[i].0.clone(), self.friend_settings[i].1.duplicate()));
            assert(self.friend_settings@.subrange(0, i + 1) == self.friend_settings@.subrange(
                0,
                i as int,
            ).push(self.friend_settings@[i as int]));
            i = i + 1;
        }
        assert(self.friend_settings@.subrange(0, n as int) == self.friend_settings@);
        AppSettings {
            default_message: self.default_message.clone(),
            default_sound: clone_opt(&self.default_sound),
            friend_settings: friends,
        }
    }
}

/// The settings in force, of which callers take copies.
#[derive(Debug)]
pub struct SettingsStore {
    pub state: AppSettings,
}

impl SettingsStore {
    pub fn new(state: AppSettings) -> (r: SettingsStore)
        ensures
            r.state == state,
    {
        SettingsStore { state }
    }

    /// A copy of the settings in force.
    pub fn snapshot(&self) -> (r: AppSettings)
        ensures
            same_settings(r, self.state),
    {
        self.state.duplicate()
    }

    pub fn set(&mut self, settings: AppSettings)
        ensures
            final(self).state == settings,
    {
        self.state = settings;
    }
}

/// The global notification defaults as the settings file holds them.
#[derive(Debug, Clone)]
pub struct NotificationConfig {
    pub message_template: String,
    pub sound: Option<String>,
}

impl Default for NotificationConfig {
    fn default() -> (r: Self)
        ensures
            r.message_template@ == "{name} is online"@,
            r.sound is None,
    {
        NotificationConfig { message_template: String::from_str("{name} is online"), sound: None }
    }
}

/// One friend's notification settings as the settings file holds them.
#[derive(Debug, Clone)]
pub struct FriendNotification {
    pub enabled: bool,
    pub use_custom: bool,
    pub message_template: Option<String>,
    pub sound: Option<String>,
}

impl Default for FriendNotification {
    fn default() -> (r: Self)
        ensures
            r.enabled,
            !r.use_custom,
            r.message_template is None,
            r.sound is None,
    {
        FriendNotification { enabled: true, use_custom: false, message_template: None, sound: None }
    }
}

/// A change to a friend's notification settings: each field that is present replaces the
/// stored one.
#[derive(Debug, Clone)]
pub struct FriendNotificationPatch {
    pub enabled: Option<bool>,
    pub use_custom: Option<bool>,
    pub message_template: Option<String>,
    pub sound: Option<String>,
}

} // verus!
