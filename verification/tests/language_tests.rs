use senka_panel::language_helper::{default_lang_resource_text, lang_resources_from_text, Language, LanguageHelper};
use senka_panel::str_table::StrKeyTable;

#[test]
fn test_lang_helper_get_static() {
    let language_helper = LanguageHelper::new(StrKeyTable::new(), StrKeyTable::new());
    println!("test_lang_helper_get_static success!");
    println!("current_langauge:{}", &language_helper.get_current_lang().name());
    assert_eq!(language_helper.get_current_lang().name(), "EnUs");
}

#[test]
fn looks_up_texts_by_language() {
    let content = "[zh_CN]\nhello = \"你好\"\nonly_zh = \"只有中文\"\n\n[en_US]\nhello = \"Hello\"\n";
    let (ch, en) = lang_resources_from_text(content).unwrap();
    let mut helper = LanguageHelper::new(ch, en);
    assert_eq!(helper.get_string_from_str("hello", &Language::ZhCn), "你好");
    assert_eq!(helper.get_string_from_str("hello", &Language::EnUs), "Hello");
    assert_eq!(helper.get_string_from_string("only_zh", &Language::ZhCn), "只有中文");
    assert_eq!(helper.get_string_from_string("only_zh", &Language::EnUs), "Not Found");
    assert_eq!(helper.get_string_from_str("missing", &Language::ZhCn), "Not Found");
    helper.switch_current_lang(Language::ZhCn);
    assert_eq!(*helper.get_current_lang(), Language::ZhCn);
    assert_eq!(Language::ZhCn.name(), "ZhCn");
}

#[test]
fn resource_file_needs_both_tables() {
    assert!(lang_resources_from_text("[zh_CN]\nhello = \"你好\"\n").is_none());
    assert!(lang_resources_from_text("not = [valid").is_none());
    assert!(lang_resources_from_text("title = \"x\"\n").is_none());
}

#[test]
fn fresh_resource_file_reads_back_empty() {
    let text = default_lang_resource_text().unwrap();
    let (ch, en) = lang_resources_from_text(&text).unwrap();
    let helper = LanguageHelper::new(ch, en);
    assert_eq!(helper.get_string_from_str("hello", &Language::EnUs), "Not Found");
}

#[test]
fn string_table_insert_get_remove() {
    let mut table: StrKeyTable<u32> = StrKeyTable::new();
    table.insert("a".to_string(), 1);
    table.insert("b".to_string(), 2);
    table.insert("a".to_string(), 3);
    assert_eq!(table.get("a"), Some(&3));
    assert!(table.contains_key("b"));
    assert_eq!(table.remove("b"), Some(2));
    assert!(!table.contains_key("b"));
    assert_eq!(table.remove("b"), None);
}
