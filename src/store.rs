use vstd::prelude::*;
use vstd::string::*;
use crate::notify::{clone_opt, normalize_optional, normalized, opt_view};
use crate::text::eq_str;

verus! {

/// The global notification defaults.
#[derive(Debug, Clone)]
pub struct NotificationSettings {
    pub message_template: String,
    pub sound: Option<String>,
}

impl Default for NotificationSettings {
    fn default() -> (r: Self)
        ensures
            r.message_template@ == "{name} is online"@,
            r.sound is None,
    {
        NotificationSettings { message_template: String::from_str("{name} is online"), sound: None }
    }
}

impl NotificationSettings {
    pub fn duplicate(&self) -> (r: Self)
        ensures
            r == *self,
    {
        NotificationSettings {
            message_template: self.message_template.clone(),
            sound: clone_opt(&self.sound),
        }
    }
}

/// One friend's notification preference.
#[derive(Debug, Clone)]
pub struct FriendNotificationPreference {
    pub enabled: bool,
    pub message_template: Option<String>,
    pub sound: Option<String>,
}

impl Default for FriendNotificationPreference {
    fn default() -> (r: Self)
        ensures
            r.enabled,
            r.message_template is None,
            r.sound is None,
    {
        FriendNotificationPreference { enabled: true, message_template: None, sound: None }
    }
}

impl FriendNotificationPreference {
    pub fn duplicate(&self) -> (r: Self)
        ensures
            r == *self,
    {
        FriendNotificationPreference {
            enabled: self.enabled,
            message_template: clone_opt(&self.message_template),
            sound: clone_opt(&self.sound),
        }
    }
}

/// A change to a friend's preference: each field that is present replaces the stored one.
#[derive(Debug, Clone)]
pub struct FriendNotificationPreferencePatch {
    pub enabled: Option<bool>,
    pub message_template: Option<String>,
    pub sound: Option<String>,
}

pub struct PreferenceView {
    pub enabled: bool,
    pub message_template: Option<Seq<char>>,
    pub sound: Option<Seq<char>>,
}

pub open spec fn pref_view(p: FriendNotificationPreference) -> PreferenceView {
    PreferenceView {
        enabled: p.enabled,
        message_template: opt_view(p.message_template),
        sound: opt_view(p.sound),
    }
}

/// A preference with `patch` applied; a text field that is present is stored trimmed, and
/// dropped where it is blank.
pub open spec fn patched(p: PreferenceView, patch: FriendNotificationPreferencePatch) -> PreferenceView {
    PreferenceView {
        enabled: match patch.enabled {
            Some(e) => e,
            None => p.enabled,
        },
        message_template: match patch.message_template {
            Some(t) => normalized(t@),
            None => p.message_template,
        },
        sound: match patch.sound {
            Some(s) => normalized(s@),
            None => p.sound,
        },
    }
}

/// The preference stored for friend `id`: the first entry under that key.
pub open spec fn pref_entry(entries: Seq<(String, FriendNotificationPreference)>, id: Seq<char>) -> Option<
    FriendNotificationPreference,
>
    decreases entries.len(),
{
    if entries.len() == 0 {
        None
    } else if entries[0].0@ == id {
        Some(entries[0].1)
    } else {
        pref_entry(entries.drop_first(), id)
    }
}

pub open spec fn opt_pref_view(o: Option<FriendNotificationPreference>) -> Option<PreferenceView> {
    match o {
        Some(p) => Some(pref_view(p)),
        None => None,
    }
}

proof fn pref_entry_update(
    s: Seq<(String, FriendNotificationPreference)>,
    i: int,
    e: (String, FriendNotificationPreference),
    id: Seq<char>,
)
    requires
        0 <= i < s.len(),
        s[i].0@ == e.0@,
        forall|j: int| 0 <= j < i ==> s[j].0@ != e.0@,
    ensures
        id == e.0@ ==> pref_entry(s.update(i, e), id) == Some(e.1),
        id != e.0@ ==> pref_entry(s.update(i, e), id) == pref_entry(s, id),
    decreases i,
{
    if i > 0 {
        assert(s.update(i, e).drop_first() == s.drop_first().update(i - 1, e));
        pref_entry_update(s.drop_first(), i - 1, e, id);
    } else {
        assert(s.update(i, e).drop_first() == s.drop_first());
    }
}

proof fn pref_entry_absent(s: Seq<(String, FriendNotificationPreference)>, id: Seq<char>)
    requires
        forall|j: int| 0 <= j < s.len() ==> s[j].0@ != id,
    ensures
        pref_entry(s, id) is None,
    decreases s.len(),
{
    if s.len() > 0 {
        pref_entry_absent(s.drop_first(), id);
    }
}

proof fn pref_entry_push(
    s: Seq<(String, FriendNotificationPreference)>,
    e: (String, FriendNotificationPreference),
    id: Seq<char>,
)
    requires
        forall|j: int| 0 <= j < s.len() ==> s[j].0@ != e.0@,
    ensures
        id == e.0@ ==> pref_entry(s.push(e), id) == Some(e.1),
        id != e.0@ ==> pref_entry(s.push(e), id) == pref_entry(s, id),
    decreases s.len(),
{
    if s.len() > 0 {
        assert(s.push(e).drop_first() == s.drop_first().push(e));
        pref_entry_push(s.drop_first(), e, id);
    } else {
        assert(s.push(e).drop_first() == s);
    }
}

/// Index of the first entry under `id`.
fn find_entry(entries: &Vec<(String, FriendNotificationPreference)>, id: &str) -> (r: Option<usize>)
    ensures
        match r {
            Some(i) => {
                &&& i < entries@.len()
                &&& entries@[i as int].0@ == id@
                &&& forall|j: int| 0 <= j < i ==> entries@[j].0@ != id@
                &&& pref_entry(entries@, id@) == Some(entries@[i as int].1)
            },
            None => {
                &&& forall|j: int| 0 <= j < entries@.len() ==> entries@[j].0@ != id@
                &&& pref_entry(entries@, id@) is None
            },
        },
{
    let n = entries.len();
    let mut i: usize = 0;
    assert(entries@.subrange(0, n as int) == entries@);
    while i < n
        invariant
            i <= n,
            n == entries@.len(),
            forall|j: int| 0 <= j < i ==> entries@[j].0@ != id@,
            pref_entry(entries@, id@) == pref_entry(entries@.subrange(i as int, n as int), id@),
        decreases n - i,
    {
        let ghost rest = entries@.subrange(i as int, n as int);
        assert(rest[0] == entries@[i as int]);
        if eq_str(entries[i].0.as_str(), id) {
            return Some(i);
        }
        assert(rest.drop_first() == entries@.subrange(i + 1, n as int));
        i = i + 1;
    }
    proof {
        pref_entry_absent(entries@, id@);
    }
    None
}

fn apply_patch(p: FriendNotificationPreference, patch: FriendNotificationPreferencePatch) -> (r:
    FriendNotificationPreference)
    ensures
        pref_view(r) == patched(pref_view(p), patch),
{
    let enabled = match patch.enabled {
        Some(e) => e,
        None => p.enabled,
    };
    let message_template = match patch.message_template {
        Some(t) => normalize_optional(t),
        None => p.message_template,
    };
    let sound = match patch.sound {
        Some(s) => normalize_optional(s),
        None => p.sound,
    };
    FriendNotificationPreference { enabled, message_template, sound }
}

/// The notification preferences: one per friend, keyed by friend id, and the defaults.
#[derive(Debug)]
pub struct NotificationStore {
    pub friends: Vec<(String, FriendNotificationPreference)>,
    pub settings: NotificationSettings,
}

impl NotificationStore {
    pub fn new(
        friends: Vec<(String, FriendNotificationPreference)>,
        settings: NotificationSettings,
    ) -> (r: NotificationStore)
        ensures
            r.friends == friends,
            r.settings == settings,
    {
        NotificationStore { friends, settings }
    }

    /// A copy of every friend's preference.
    pub fn all(&self) -> (r: Vec<(String, FriendNotificationPreference)>)
        ensures
            r@ == self.friends@,
    {
        let mut out: Vec<(String, FriendNotificationPreference)> = Vec::new();
        let n = self.friends.len();
        let mut i: usize = 0;
        while i < n
            invariant
                i <= n,
                n == self.friends@.len(),
                out@ == self.friends@.subrange(0, i as int),
            decreases n - i,
        {
            let entry = (self.friends[i].0.clone(), self.friends[i].1.duplicate());
            out.push(entry);
            assert(self.friends@.subrange(0, i + 1) == self.friends@.subrange(0, i as int).push(
                self.friends@[i as int],
            ));
            i = i + 1;
        }
        assert(self.friends@.subrange(0, n as int) == self.friends@);
        out
    }

    /// The preference stored for `friend_id`, if any.
    pub fn preference(&self, friend_id: &str) -> (r: Option<FriendNotificationPreference>)
        ensures
            r == pref_entry(self.friends@, friend_id@),
    {
        match find_entry(&self.friends, friend_id) {
            Some(i) => Some(self.friends[i].1.duplicate()),
            None => None,
        }
    }

    pub fn settings(&self) -> (r: NotificationSettings)
        ensures
            r == self.settings,
    {
        self.settings.duplicate()
    }

    /// Applies `patch` to the preference of `friend_id`, which starts from the default where
    /// there is none yet; every other friend's preference stays as it was.
    pub fn set_preference(&mut self, friend_id: String, patch: FriendNotificationPreferencePatch)
        ensures
            opt_pref_view(pref_entry(final(self).friends@, friend_id@)) == Some(
                patched(
                    match pref_entry(old(self).friends@, friend_id@) {
                        Some(p) => pref_view(p),
                        None => PreferenceView { enabled: true, message_template: None, sound: None },
                    },
                    patch,
                ),
            ),
            forall|id: Seq<char>|
                id != friend_id@ ==> #[trigger] pref_entry(final(self).friends@, id) == pref_entry(
                    old(self).friends@,
                    id,
                ),
            final(self).settings == old(self).settings,
    {
        match find_entry(&self.friends, friend_id.as_str()) {
            Some(i) => {
                let current = self.friends[i].1.duplicate();
                let updated = apply_patch(current, patch);
                let ghost before = self.friends@;
                let ghost e = (friend_id, updated);
                self.friends.set(i, (friend_id, updated));
                proof {
                    assert(self.friends@ == before.update(i as int, e));
                    pref_entry_update(before, i as int, e, e.0@);
                    assert forall|id: Seq<char>| id != e.0@ implies #[trigger] pref_entry(
                        self.friends@,
                        id,
                    ) == pref_entry(before, id) by {
                        pref_entry_update(before, i as int, e, id);
                    }
                }
            },
            None => {
                let updated = apply_patch(FriendNotificationPreference::default(), patch);
                let ghost before = self.friends@;
                let ghost e = (friend_id, updated);
                self.friends.push((friend_id, updated));
                proof {
                    pref_entry_push(before, e, e.0@);
                    assert forall|id: Seq<char>| id != e.0@ implies #[trigger] pref_entry(
                        self.friends@,
                        id,
                    ) == pref_entry(before, id) by {
                        pref_entry_push(before, e, id);
                    }
                }
            },
        }
    }

    /// Replaces the defaults; the sound is stored trimmed, and dropped where it is blank.
    pub fn set_settings(&mut self, settings: NotificationSettings)
        ensures
            final(self).settings.message_template == settings.message_template,
            opt_view(final(self).settings.sound) == match settings.sound {
                Some(s) => normalized(s@),
                None => None,
            },
            final(self).friends == old(self).friends,
    {
        let sound = match settings.sound {
            Some(s) => normalize_optional(s),
            None => None,
        };
        self.settings = NotificationSettings { message_template: settings.message_template, sound };
    }
}

} // verus!
