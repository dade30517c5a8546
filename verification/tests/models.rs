use prompt_mixer::models::{
    can_delete_preset, contains_column, history_messages, plan_icon_migration, preview_of,
    AnchorPreset, AppSetting, Chat, ChatWithPreview, IconMigration, Message, NewChat, NewMessage,
};
use prompt_mixer::protocol::ChatMessage;

#[test]
fn short_message_is_its_own_preview() {
    assert_eq!(preview_of(""), "");
    assert_eq!(preview_of("hello"), "hello");
    let hundred = "x".repeat(100);
    assert_eq!(preview_of(&hundred), hundred);
}

#[test]
fn long_message_is_cut_after_a_hundred_characters() {
    let long = format!("{}{}", "a".repeat(100), "b");
    assert_eq!(preview_of(&long), format!("{}…", "a".repeat(100)));
    let longer = "0123456789".repeat(30);
    assert_eq!(preview_of(&longer), format!("{}…", "0123456789".repeat(10)));
}

#[test]
fn preview_counts_characters_not_bytes() {
    let hundred = "é".repeat(100);
    assert_eq!(preview_of(&hundred), hundred);
    let more = format!("{}z", "é".repeat(100));
    assert_eq!(preview_of(&more), format!("{}…", "é".repeat(100)));
}

#[test]
fn only_the_default_preset_is_kept_from_deletion() {
    assert!(!can_delete_preset(1));
    assert!(can_delete_preset(2));
    assert!(can_delete_preset(0));
    assert!(can_delete_preset(-1));
}

#[test]
fn history_keeps_role_and_content_in_order() {
    let stored = vec![
        Message {
            id: 7,
            chat_id: 3,
            role: "user".to_string(),
            content: "Hi".to_string(),
            created_at: "2024-01-01T00:00:00Z".to_string(),
        },
        Message {
            id: 9,
            chat_id: 3,
            role: "assistant".to_string(),
            content: "Hello <think>x</think>".to_string(),
            created_at: "2024-01-01T00:00:05Z".to_string(),
        },
    ];
    assert_eq!(
        history_messages(&stored),
        vec![
            ChatMessage { role: "user".to_string(), content: "Hi".to_string() },
            ChatMessage {
                role: "assistant".to_string(),
                content: "Hello <think>x</think>".to_string()
            },
        ]
    );
    assert_eq!(history_messages(&Vec::new()), Vec::new());
}

fn columns(names: &[&str]) -> Vec<String> {
    names.iter().map(|n| n.to_string()).collect()
}

#[test]
fn migration_follows_the_icon_columns() {
    let current = columns(&["id", "preset_id", "label", "icon_small", "icon_large", "color"]);
    assert_eq!(plan_icon_migration(&current), IconMigration::NotNeeded);
    let oldest = columns(&["id", "preset_id", "label", "icon", "color"]);
    assert_eq!(plan_icon_migration(&oldest), IconMigration::FromSingleIcon);
    let between = columns(&["id", "icon", "icon_small", "icon_large"]);
    assert_eq!(plan_icon_migration(&between), IconMigration::FromSplitIcons);
    assert_eq!(plan_icon_migration(&Vec::new()), IconMigration::NotNeeded);
    let near = columns(&["icons", "Icon", "icon "]);
    assert_eq!(plan_icon_migration(&near), IconMigration::NotNeeded);
}

#[test]
fn column_lookup_is_exact() {
    let names = columns(&["id", "icon_small"]);
    assert!(contains_column(&names, "id"));
    assert!(contains_column(&names, "icon_small"));
    assert!(!contains_column(&names, "icon"));
    assert!(!contains_column(&names, ""));
}

#[test]
fn records_hold_what_they_are_given() {
    let chat = Chat {
        id: 1,
        title: "t".to_string(),
        created_at: "a".to_string(),
        updated_at: "b".to_string(),
    };
    assert_eq!(chat.clone(), chat);
    let preview = ChatWithPreview {
        id: 1,
        title: "t".to_string(),
        created_at: "a".to_string(),
        updated_at: "b".to_string(),
        last_message: Some(preview_of("hello")),
        last_message_role: None,
    };
    assert_eq!(preview.last_message.as_deref(), Some("hello"));
    let preset = AnchorPreset {
        id: 1,
        name: "Emotions".to_string(),
        created_at: "a".to_string(),
        updated_at: "b".to_string(),
    };
    assert_eq!(preset.name, "Emotions");
    let setting = AppSetting { key: "k".to_string(), value: "v".to_string() };
    assert_eq!(setting.value, "v");
    assert_eq!(NewChat { title: "n".to_string() }.title, "n");
    let message = NewMessage { chat_id: 4, role: "user".to_string(), content: "c".to_string() };
    assert_eq!(message.chat_id, 4);
}
