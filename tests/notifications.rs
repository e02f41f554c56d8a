use vfriends::notify::{
    format_message, friend_online_payload, normalize_optional, resolve, resolve_settings,
    AppSettings, FriendSettings,
};
use vfriends::store::{
    FriendNotificationPreferencePatch, NotificationSettings, NotificationStore,
};

fn settings_with(id: &str, f: FriendSettings) -> AppSettings {
    let mut s = AppSettings::default();
    s.friend_settings.push((id.to_string(), f));
    s
}

#[test]
fn disabled_friend_is_suppressed() {
    let pref = FriendSettings {
        enabled: false,
        use_override: true,
        message_override: Some("hi {name}".to_string()),
        sound_override: Some("ding.wav".to_string()),
    };
    assert!(resolve("Nyx", &"{name} is online".to_string(), &Some("a.wav".to_string()), Some(&pref)).is_none());
    assert!(resolve("Nyx", &String::new(), &None, Some(&pref)).is_none());
}

#[test]
fn default_template_names_the_friend() {
    let n = resolve("Nyx", &"{name} is online".to_string(), &None, None).unwrap();
    assert_eq!(n.message, "Nyx is online");
    assert!(n.sound.is_none());
}

#[test]
fn override_replaces_default_when_switched_on() {
    let pref = FriendSettings {
        enabled: true,
        use_override: true,
        message_override: Some("{displayName} joined".to_string()),
        sound_override: Some("ding.wav".to_string()),
    };
    let n = resolve("Nyx", &"{name} is online".to_string(), &Some("a.wav".to_string()), Some(&pref)).unwrap();
    assert_eq!(n.message, "Nyx joined");
    assert_eq!(n.sound.as_deref(), Some("ding.wav"));

    let off = FriendSettings { use_override: false, ..pref.clone() };
    let n = resolve("Nyx", &"{name} is online".to_string(), &Some("a.wav".to_string()), Some(&off)).unwrap();
    assert_eq!(n.message, "Nyx is online");
    assert_eq!(n.sound.as_deref(), Some("a.wav"));
}

#[test]
fn empty_override_falls_back_to_default() {
    let pref = FriendSettings {
        enabled: true,
        use_override: true,
        message_override: Some(String::new()),
        sound_override: Some(String::new()),
    };
    let n = resolve("Nyx", &"{name} is online".to_string(), &Some("a.wav".to_string()), Some(&pref)).unwrap();
    assert_eq!(n.message, "Nyx is online");
    assert_eq!(n.sound.as_deref(), Some("a.wav"));
}

#[test]
fn format_message_cases() {
    assert_eq!(format_message("  {name} and {name}  ", "Nyx"), "Nyx and Nyx");
    assert_eq!(format_message("{displayName}!", "Vex"), "Vex!");
    assert_eq!(format_message("   ", "Nyx"), "");
    assert_eq!(format_message("", "Nyx"), "");
    assert_eq!(format_message("no placeholder", "Nyx"), "no placeholder");
    assert_eq!(format_message("{nam}{name", "Nyx"), "{nam}{name");
}

#[test]
fn resolve_settings_by_friend_id() {
    let s = settings_with(
        "usr_1",
        FriendSettings { enabled: false, use_override: false, message_override: None, sound_override: None },
    );
    assert!(resolve_settings(&s, Some("usr_1")).is_none());
    let (t, sound) = resolve_settings(&s, Some("usr_2")).unwrap();
    assert_eq!(t, "{name} is online");
    assert!(sound.is_none());
    assert!(resolve_settings(&s, None).is_some());
    assert!(s.friend_settings_of("usr_1").is_some());
    assert!(s.friend_settings_of("usr_3").is_none());
}

#[test]
fn payload_for_friend_online() {
    let s = settings_with(
        "usr_1",
        FriendSettings {
            enabled: true,
            use_override: true,
            message_override: Some("{name} is here".to_string()),
            sound_override: None,
        },
    );
    let (p, sound) = friend_online_payload(&s, Some("usr_1"), "Nyx", Some("https://x/y.png".to_string())).unwrap();
    assert_eq!(p.title, "Friend Online");
    assert_eq!(p.body, "Nyx is here");
    assert_eq!(p.display_name, "Nyx");
    assert_eq!(p.image_url.as_deref(), Some("https://x/y.png"));
    assert!(sound.is_none());
}

#[test]
fn normalize_optional_trims() {
    assert_eq!(normalize_optional("  a b ".to_string()).as_deref(), Some("a b"));
    assert_eq!(normalize_optional(" \t\n".to_string()), None);
    assert_eq!(normalize_optional(String::new()), None);
}

#[test]
fn preference_patches_apply_to_one_friend() {
    let mut store = NotificationStore::new(Vec::new(), NotificationSettings::default());
    assert!(store.preference("a").is_none());
    store.set_preference(
        "a".to_string(),
        FriendNotificationPreferencePatch { enabled: Some(false), message_template: Some("  hi  ".to_string()), sound: None },
    );
    store.set_preference(
        "b".to_string(),
        FriendNotificationPreferencePatch { enabled: None, message_template: None, sound: Some("x.wav".to_string()) },
    );
    let a = store.preference("a").unwrap();
    assert!(!a.enabled);
    assert_eq!(a.message_template.as_deref(), Some("hi"));
    store.set_preference(
        "a".to_string(),
        FriendNotificationPreferencePatch { enabled: None, message_template: Some("   ".to_string()), sound: None },
    );
    let a = store.preference("a").unwrap();
    assert!(!a.enabled);
    assert!(a.message_template.is_none());
    let b = store.preference("b").unwrap();
    assert!(b.enabled);
    assert_eq!(b.sound.as_deref(), Some("x.wav"));
    assert_eq!(store.all().len(), 2);
    assert_eq!(store.settings().message_template, "{name} is online");
}

#[test]
fn settings_sound_is_normalised() {
    let mut store = NotificationStore::new(Vec::new(), NotificationSettings::default());
    store.set_settings(NotificationSettings { message_template: "x".to_string(), sound: Some("  ".to_string()) });
    assert!(store.settings().sound.is_none());
    store.set_settings(NotificationSettings { message_template: "x".to_string(), sound: Some(" s.wav ".to_string()) });
    assert_eq!(store.settings().sound.as_deref(), Some("s.wav"));
}
