use dictionary_lookup::entry::{decode_entries, decode_list, read_entries, Decode};
use dictionary_lookup::{Definition, License, Meaning, Phonetic, WordEntry};
use serde_json::Value;

fn json(text: &str) -> Value {
    serde_json::from_str::<Value>(text).unwrap()
}

fn list(text: &str) -> Vec<Value> {
    json(text).as_array().unwrap().clone()
}

const FULL_ENTRY: &str = r#"{
    "word": "hello",
    "phonetic": "/həˈləʊ/",
    "phonetics": [
        {"text": "/həˈləʊ/", "audio": "https://a.example/hello.mp3",
         "sourceUrl": "https://s.example/1", "license": {"name": "BY-SA", "url": "https://l.example"}},
        {"audio": ""}
    ],
    "meanings": [
        {"partOfSpeech": "noun",
         "definitions": [
            {"definition": "a greeting", "synonyms": ["hi", 1], "antonyms": [], "example": "she said hello"},
            {"definition": "second", "synonyms": [], "antonyms": []}
         ],
         "synonyms": ["greeting"], "antonyms": []},
        {"partOfSpeech": "verb",
         "definitions": [{"definition": "to greet", "synonyms": [], "antonyms": [null]}],
         "synonyms": [], "antonyms": []}
    ],
    "license": {"name": "CC", "url": "https://cc.example"},
    "sourceUrls": ["https://en.example/hello"]
}"#;

#[test]
fn license_needs_both_strings() {
    assert_eq!(
        License::decode(&json(r#"{"name":"CC","url":"u"}"#)),
        Some(License { name: "CC".to_string(), url: "u".to_string() })
    );
    assert_eq!(License::decode(&json(r#"{"name":"CC"}"#)), None);
    assert_eq!(License::decode(&json(r#"{"url":"u"}"#)), None);
    assert_eq!(License::decode(&json(r#"{"name":"CC","url":null}"#)), None);
    assert_eq!(License::decode(&json(r#"{"name":1,"url":"u"}"#)), None);
    assert_eq!(License::decode(&json(r#"["CC","u"]"#)), None);
    assert_eq!(License::decode(&json("null")), None);
}

#[test]
fn license_passes_over_other_members() {
    assert_eq!(
        License::decode(&json(r#"{"name":"","url":"","since":2020,"more":{"a":[1]}}"#)),
        Some(License { name: String::new(), url: String::new() })
    );
}

#[test]
fn a_string_is_read_from_a_string_only() {
    assert_eq!(String::decode(&json(r#""a b""#)), Some("a b".to_string()));
    assert_eq!(String::decode(&json(r#""""#)), Some(String::new()));
    assert_eq!(String::decode(&json("1")), None);
    assert_eq!(String::decode(&json("null")), None);
    assert_eq!(String::decode(&json(r#"["a"]"#)), None);
}

#[test]
fn texts_must_all_be_strings() {
    assert_eq!(decode_list::<String>(&list(r#"["a","b",""]"#)), Some(vec!["a".to_string(), "b".to_string(), String::new()]));
    assert_eq!(decode_list::<String>(&list("[]")), Some(vec![]));
    assert_eq!(decode_list::<String>(&list(r#"["a",1]"#)), None);
    assert_eq!(decode_list::<String>(&list(r#"[null]"#)), None);
    assert_eq!(decode_list::<String>(&list(r#"["a",["b"]]"#)), None);
}

#[test]
fn definition_with_everything() {
    let d = Definition::decode(&json(
        r#"{"definition":"a trial","synonyms":["exam",{"k":1}],"antonyms":[true],"example":"this is a test"}"#,
    ));
    assert_eq!(
        d,
        Some(Definition {
            definition: "a trial".to_string(),
            synonyms: vec![json(r#""exam""#), json(r#"{"k":1}"#)],
            antonyms: vec![json("true")],
            example: Some("this is a test".to_string()),
        })
    );
}

#[test]
fn definition_without_synonyms_antonyms_and_example() {
    assert_eq!(
        Definition::decode(&json(r#"{"definition":"a trial"}"#)),
        Some(Definition {
            definition: "a trial".to_string(),
            synonyms: vec![],
            antonyms: vec![],
            example: None,
        })
    );
}

#[test]
fn definition_with_a_null_example_has_none() {
    let d = Definition::decode(&json(r#"{"definition":"d","example":null}"#)).unwrap();
    assert_eq!(d.example, None);
}

#[test]
fn definition_is_refused_on_a_wrong_member() {
    assert_eq!(Definition::decode(&json(r#"{"synonyms":[]}"#)), None);
    assert_eq!(Definition::decode(&json(r#"{"definition":7}"#)), None);
    assert_eq!(Definition::decode(&json(r#"{"definition":null}"#)), None);
    assert_eq!(Definition::decode(&json(r#"{"definition":"d","example":3}"#)), None);
    assert_eq!(Definition::decode(&json(r#"{"definition":"d","synonyms":"x"}"#)), None);
    assert_eq!(Definition::decode(&json(r#"{"definition":"d","synonyms":null}"#)), None);
    assert_eq!(Definition::decode(&json(r#"{"definition":"d","antonyms":{}}"#)), None);
    assert_eq!(Definition::decode(&json(r#""d""#)), None);
}

#[test]
fn definitions_fail_as_soon_as_one_does() {
    assert_eq!(decode_list::<Definition>(&list(r#"[{"definition":"a"},{"definition":1}]"#)), None);
    let ds = decode_list::<Definition>(&list(r#"[{"definition":"a"},{"definition":"b"}]"#)).unwrap();
    assert_eq!(ds.len(), 2);
    assert_eq!(ds[0].definition, "a");
    assert_eq!(ds[1].definition, "b");
    assert_eq!(decode_list::<Definition>(&list("[]")), Some(vec![]));
}

#[test]
fn meaning_needs_part_of_speech_and_definitions() {
    assert_eq!(
        Meaning::decode(&json(r#"{"partOfSpeech":"noun","definitions":[]}"#)),
        Some(Meaning { part_of_speech: "noun".to_string(), definitions: vec![] })
    );
    assert_eq!(Meaning::decode(&json(r#"{"partOfSpeech":"noun"}"#)), None);
    assert_eq!(Meaning::decode(&json(r#"{"definitions":[]}"#)), None);
    assert_eq!(Meaning::decode(&json(r#"{"partOfSpeech":"noun","definitions":null}"#)), None);
    assert_eq!(Meaning::decode(&json(r#"{"partOfSpeech":"noun","definitions":{}}"#)), None);
    assert_eq!(Meaning::decode(&json(r#"{"part_of_speech":"noun","definitions":[]}"#)), None);
    assert_eq!(Meaning::decode(&json(r#"{"partOfSpeech":"noun","definitions":[{}]}"#)), None);
}

#[test]
fn meaning_passes_over_its_own_synonyms() {
    let m = Meaning::decode(&json(
        r#"{"partOfSpeech":"noun","definitions":[{"definition":"d"}],"synonyms":5,"antonyms":["x"]}"#,
    ))
    .unwrap();
    assert_eq!(m.part_of_speech, "noun");
    assert_eq!(m.definitions.len(), 1);
}

#[test]
fn meanings_keep_their_order() {
    let ms = decode_list::<Meaning>(&list(
        r#"[{"partOfSpeech":"noun","definitions":[]},{"partOfSpeech":"verb","definitions":[]}]"#,
    ))
    .unwrap();
    assert_eq!(ms[0].part_of_speech, "noun");
    assert_eq!(ms[1].part_of_speech, "verb");
    assert_eq!(decode_list::<Meaning>(&list(r#"[{"partOfSpeech":"noun","definitions":[]},3]"#)), None);
}

#[test]
fn phonetic_with_everything() {
    assert_eq!(
        Phonetic::decode(&json(
            r#"{"audio":"a.mp3","sourceUrl":"s","license":{"name":"n","url":"u"},"text":"/t/"}"#
        )),
        Some(Phonetic {
            audio: "a.mp3".to_string(),
            source_url: Some("s".to_string()),
            license: Some(License { name: "n".to_string(), url: "u".to_string() }),
            text: Some("/t/".to_string()),
        })
    );
}

#[test]
fn phonetic_with_audio_alone() {
    assert_eq!(
        Phonetic::decode(&json(r#"{"audio":""}"#)),
        Some(Phonetic { audio: String::new(), source_url: None, license: None, text: None })
    );
    assert_eq!(
        Phonetic::decode(&json(r#"{"audio":"","sourceUrl":null,"license":null,"text":null}"#)),
        Some(Phonetic { audio: String::new(), source_url: None, license: None, text: None })
    );
}

#[test]
fn phonetic_is_refused_on_a_wrong_member() {
    assert_eq!(Phonetic::decode(&json(r#"{"text":"/t/"}"#)), None);
    assert_eq!(Phonetic::decode(&json(r#"{"audio":null}"#)), None);
    assert_eq!(Phonetic::decode(&json(r#"{"audio":"","text":1}"#)), None);
    assert_eq!(Phonetic::decode(&json(r#"{"audio":"","sourceUrl":[]}"#)), None);
    assert_eq!(Phonetic::decode(&json(r#"{"audio":"","license":{"name":"n"}}"#)), None);
    assert_eq!(Phonetic::decode(&json(r#"{"audio":"","license":"CC"}"#)), None);
    assert_eq!(decode_list::<Phonetic>(&list(r#"[{"audio":""},{}]"#)), None);
}

#[test]
fn entry_as_the_dictionary_sends_it() {
    let e = WordEntry::decode(&json(FULL_ENTRY)).unwrap();
    assert_eq!(e.word, "hello");
    assert_eq!(e.phonetics.len(), 2);
    assert_eq!(e.phonetics[0].text, Some("/həˈləʊ/".to_string()));
    assert_eq!(e.phonetics[1], Phonetic { audio: String::new(), source_url: None, license: None, text: None });
    assert_eq!(e.meanings.len(), 2);
    assert_eq!(e.meanings[0].definitions.len(), 2);
    assert_eq!(e.meanings[0].definitions[0].synonyms, vec![json(r#""hi""#), json("1")]);
    assert_eq!(e.meanings[1].definitions[0].antonyms, vec![Value::Null]);
    assert_eq!(e.synonyms, Vec::<String>::new());
    assert_eq!(e.antonyms, Vec::<String>::new());
    assert_eq!(e.license, License { name: "CC".to_string(), url: "https://cc.example".to_string() });
    assert_eq!(e.source_urls, vec!["https://en.example/hello".to_string()]);
}

#[test]
fn entry_with_its_own_synonyms() {
    let e = WordEntry::decode(&json(
        r#"{"word":"w","phonetics":[],"meanings":[],"synonyms":["a","b"],"antonyms":["c"],
            "license":{"name":"","url":""},"sourceUrls":[]}"#,
    ));
    assert_eq!(
        e,
        Some(WordEntry {
            word: "w".to_string(),
            phonetics: vec![],
            meanings: vec![],
            synonyms: vec!["a".to_string(), "b".to_string()],
            antonyms: vec!["c".to_string()],
            license: License::default(),
            source_urls: vec![],
        })
    );
}

#[test]
fn entry_is_refused_when_a_member_is_missing() {
    let whole = r#"{"word":"w","phonetics":[],"meanings":[],"license":{"name":"","url":""},"sourceUrls":[]}"#;
    assert!(WordEntry::decode(&json(whole)).is_some());
    assert_eq!(WordEntry::decode(&json(r#"{"phonetics":[],"meanings":[],"license":{"name":"","url":""},"sourceUrls":[]}"#)), None);
    assert_eq!(WordEntry::decode(&json(r#"{"word":"w","meanings":[],"license":{"name":"","url":""},"sourceUrls":[]}"#)), None);
    assert_eq!(WordEntry::decode(&json(r#"{"word":"w","phonetics":[],"license":{"name":"","url":""},"sourceUrls":[]}"#)), None);
    assert_eq!(WordEntry::decode(&json(r#"{"word":"w","phonetics":[],"meanings":[],"sourceUrls":[]}"#)), None);
    assert_eq!(WordEntry::decode(&json(r#"{"word":"w","phonetics":[],"meanings":[],"license":{"name":"","url":""}}"#)), None);
}

#[test]
fn entry_is_refused_on_a_wrong_member() {
    assert_eq!(WordEntry::decode(&json(r#"{"word":1,"phonetics":[],"meanings":[],"license":{"name":"","url":""},"sourceUrls":[]}"#)), None);
    assert_eq!(WordEntry::decode(&json(r#"{"word":"w","phonetics":{},"meanings":[],"license":{"name":"","url":""},"sourceUrls":[]}"#)), None);
    assert_eq!(WordEntry::decode(&json(r#"{"word":"w","phonetics":[],"meanings":[1],"license":{"name":"","url":""},"sourceUrls":[]}"#)), None);
    assert_eq!(WordEntry::decode(&json(r#"{"word":"w","phonetics":[],"meanings":[],"license":null,"sourceUrls":[]}"#)), None);
    assert_eq!(WordEntry::decode(&json(r#"{"word":"w","phonetics":[],"meanings":[],"license":{"name":"","url":""},"sourceUrls":[1]}"#)), None);
    assert_eq!(WordEntry::decode(&json(r#"{"word":"w","phonetics":[],"meanings":[],"synonyms":[1],"license":{"name":"","url":""},"sourceUrls":[]}"#)), None);
    assert_eq!(WordEntry::decode(&json(r#"{"word":"w","phonetics":[],"meanings":[],"antonyms":null,"license":{"name":"","url":""},"sourceUrls":[]}"#)), None);
    assert_eq!(WordEntry::decode(&json(r#"["w",[],[],{"name":"","url":""},[]]"#)), None);
}

#[test]
fn entries_must_be_a_list_of_entries() {
    assert_eq!(decode_entries(&json("[]")), Some(vec![]));
    assert_eq!(decode_entries(&json(r#"{"title":"No Definitions Found"}"#)), None);
    assert_eq!(decode_entries(&json("null")), None);
    assert_eq!(decode_entries(&json(r#""text""#)), None);
    assert_eq!(decode_entries(&json("[1]")), None);
    let two = format!("[{},{}]", FULL_ENTRY, FULL_ENTRY);
    assert_eq!(decode_entries(&json(&two)).unwrap().len(), 2);
    let broken = format!("[{},{}]", FULL_ENTRY, "{}");
    assert_eq!(decode_entries(&json(&broken)), None);
}

#[test]
fn read_entries_reads_the_text() {
    let text = format!("  [{}]\n", FULL_ENTRY);
    let es = read_entries(text.as_bytes()).unwrap();
    assert_eq!(es.len(), 1);
    assert_eq!(Some(es[0].clone()), WordEntry::decode(&json(FULL_ENTRY)));
    assert_eq!(read_entries(b"[]"), Some(vec![]));
}

#[test]
fn read_entries_refuses_what_is_no_json() {
    assert_eq!(read_entries(b""), None);
    assert_eq!(read_entries(b"["), None);
    assert_eq!(read_entries(b"[] []"), None);
    assert_eq!(read_entries(b"<html></html>"), None);
    assert_eq!(read_entries(&[b'[', b'"', 0xff, b'"', b']']), None);
}
