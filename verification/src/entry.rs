//! The records of a dictionary answer, and how they are read from JSON.
//!
//! An answer is a list of entries. A record is a JSON object; members that it
//! does not name are passed over. A member that must be a string, a list or a
//! record has to be there and be one; an optional member may be missing or
//! null; a list of synonyms or antonyms may be missing and is then empty.

use vstd::prelude::*;
use crate::json::{
    as_list, as_text, copy_of, is_null, json_of, json_read, jsons_of, member, read_json, Json,
};

verus! {

/// Under which terms a text or a recording may be used.
#[derive(Clone, Debug, PartialEq, Default)]
pub struct License {
    pub name: String,
    pub url: String,
}

/// One way of saying a word.
#[derive(Clone, Debug, PartialEq, Default)]
pub struct Phonetic {
    pub audio: String,
    pub source_url: Option<String>,
    pub license: Option<License>,
    pub text: Option<String>,
}

/// One sense of a word, with an example of its use where there is one. Its
/// synonyms and antonyms are kept as the JSON they came in.
#[derive(Clone, Debug, PartialEq, Default)]
pub struct Definition {
    pub definition: String,
    pub synonyms: Vec<serde_json::Value>,
    pub antonyms: Vec<serde_json::Value>,
    pub example: Option<String>,
}

/// The senses that a word has as one part of speech.
#[derive(Clone, Debug, PartialEq, Default)]
pub struct Meaning {
    pub part_of_speech: String,
    pub definitions: Vec<Definition>,
}

/// One entry of the dictionary for a word.
#[derive(Clone, Debug, PartialEq, Default)]
pub struct WordEntry {
    pub word: String,
    pub phonetics: Vec<Phonetic>,
    pub meanings: Vec<Meaning>,
    pub synonyms: Vec<String>,
    pub antonyms: Vec<String>,
    pub license: License,
    pub source_urls: Vec<String>,
}

/// A license as contracts see it.
#[verifier::ext_equal]
pub struct LicenseView {
    pub name: Seq<char>,
    pub url: Seq<char>,
}

/// A pronunciation as contracts see it.
#[verifier::ext_equal]
pub struct PhoneticView {
    pub audio: Seq<char>,
    pub source_url: Option<Seq<char>>,
    pub license: Option<LicenseView>,
    pub text: Option<Seq<char>>,
}

/// A definition as contracts see it. Synonyms and antonyms are kept as the
/// documents they were.
#[verifier::ext_equal]
pub struct DefinitionView {
    pub definition: Seq<char>,
    pub synonyms: Seq<Json>,
    pub antonyms: Seq<Json>,
    pub example: Option<Seq<char>>,
}

/// A meaning as contracts see it.
#[verifier::ext_equal]
pub struct MeaningView {
    pub part_of_speech: Seq<char>,
    pub definitions: Seq<DefinitionView>,
}

/// An entry as contracts see it.
#[verifier::ext_equal]
pub struct WordEntryView {
    pub word: Seq<char>,
    pub phonetics: Seq<PhoneticView>,
    pub meanings: Seq<MeaningView>,
    pub synonyms: Seq<Seq<char>>,
    pub antonyms: Seq<Seq<char>>,
    pub license: LicenseView,
    pub source_urls: Seq<Seq<char>>,
}

/// The views of the items of a sequence, in order.
pub open spec fn views<T: View>(items: Seq<T>) -> Seq<T::V> {
    Seq::new(items.len(), |i: int| items[i]@)
}

/// The view of what an option holds, if it holds anything.
pub open spec fn view_of<T: View>(item: Option<T>) -> Option<T::V> {
    match item {
        Some(x) => Some(x@),
        None => None,
    }
}

/// The views of the items of a list that was read, if one was.
pub open spec fn list_view<T: View>(list: Option<Vec<T>>) -> Option<Seq<T::V>> {
    match list {
        Some(items) => Some(views(items@)),
        None => None,
    }
}

impl View for License {
    type V = LicenseView;

    open spec fn view(&self) -> LicenseView {
        LicenseView { name: self.name@, url: self.url@ }
    }
}

impl View for Phonetic {
    type V = PhoneticView;

    open spec fn view(&self) -> PhoneticView {
        PhoneticView {
            audio: self.audio@,
            source_url: view_of(self.source_url),
            license: view_of(self.license),
            text: view_of(self.text),
        }
    }
}

impl View for Definition {
    type V = DefinitionView;

    open spec fn view(&self) -> DefinitionView {
        DefinitionView {
            definition: self.definition@,
            synonyms: jsons_of(self.synonyms@),
            antonyms: jsons_of(self.antonyms@),
            example: view_of(self.example),
        }
    }
}

impl View for Meaning {
    type V = MeaningView;

    open spec fn view(&self) -> MeaningView {
        MeaningView {
            part_of_speech: self.part_of_speech@,
            definitions: views(self.definitions@),
        }
    }
}

impl View for WordEntry {
    type V = WordEntryView;

    open spec fn view(&self) -> WordEntryView {
        WordEntryView {
            word: self.word@,
            phonetics: views(self.phonetics@),
            meanings: views(self.meanings@),
            synonyms: views(self.synonyms@),
            antonyms: views(self.antonyms@),
            license: self.license@,
            source_urls: views(self.source_urls@),
        }
    }
}

/// The member of an object under a key, if `j` is an object and has one.
pub open spec fn field(j: Json, key: Seq<char>) -> Option<Json> {
    if j is Object && j->Object_0.contains_key(key) {
        Some(j->Object_0[key])
    } else {
        None
    }
}

/// A member that must be a list.
pub open spec fn list_field(j: Json, key: Seq<char>) -> Option<Seq<Json>> {
    match field(j, key) {
        Some(Json::List(items)) => Some(items),
        _ => None,
    }
}

/// A member that is a list where it is there, and stands for the empty list
/// where it is missing.
pub open spec fn list_field_or_empty(j: Json, key: Seq<char>) -> Option<Seq<Json>> {
    match field(j, key) {
        None => Some(Seq::empty()),
        Some(Json::List(items)) => Some(items),
        _ => None,
    }
}

/// Something that is read from a JSON document.
pub trait Decode: View + Sized {
    /// What a document describes, if it describes anything of this kind.
    spec fn from_json(j: Json) -> Option<Self::V>;

    /// Reads a document.
    fn decode(v: &serde_json::Value) -> (r: Option<Self>)
        ensures
            view_of(r) == Self::from_json(json_of(*v)),
    ;
}

/// A list whose items must all be of one kind.
pub open spec fn list_from<T: Decode>(items: Seq<Json>) -> Option<Seq<T::V>> {
    if forall|i: int| 0 <= i < items.len() ==> T::from_json(#[trigger] items[i]) is Some {
        Some(Seq::new(items.len(), |i: int| T::from_json(items[i])->0))
    } else {
        None
    }
}

/// A member that must be there and be of some kind.
pub open spec fn required_field<T: Decode>(j: Json, key: Seq<char>) -> Option<T::V> {
    match field(j, key) {
        Some(m) => T::from_json(m),
        None => None,
    }
}

/// A member that is of some kind where it is there and not null. The outer
/// option says whether the member is acceptable.
pub open spec fn optional_field<T: Decode>(j: Json, key: Seq<char>) -> Option<Option<T::V>> {
    match field(j, key) {
        None => Some(None),
        Some(Json::Null) => Some(None),
        Some(m) => match T::from_json(m) {
            Some(item) => Some(Some(item)),
            None => None,
        },
    }
}

/// A member that must be a list of items of one kind.
pub open spec fn items_field<T: Decode>(j: Json, key: Seq<char>) -> Option<Seq<T::V>> {
    match list_field(j, key) {
        Some(items) => list_from::<T>(items),
        None => None,
    }
}

/// A member that is a list of items of one kind where it is there, and
/// stands for the empty list where it is missing.
pub open spec fn items_field_or_empty<T: Decode>(j: Json, key: Seq<char>) -> Option<Seq<T::V>> {
    match list_field_or_empty(j, key) {
        Some(items) => list_from::<T>(items),
        None => None,
    }
}

/// The entries that an answer holds: the document must be a list, and each
/// of its items an entry.
pub open spec fn entries_from(j: Json) -> Option<Seq<WordEntryView>> {
    match j {
        Json::List(items) => list_from::<WordEntry>(items),
        _ => None,
    }
}

/// The entries that the text of an answer holds.
pub open spec fn entries_read(body: Seq<u8>) -> Option<Seq<WordEntryView>> {
    match json_read(body) {
        Some(j) => entries_from(j),
        None => None,
    }
}

/// Reads a member that must be there.
fn required_member<T: Decode>(v: &serde_json::Value, key: &str) -> (r: Option<T>)
    ensures
        view_of(r) == required_field::<T>(json_of(*v), key@),
{
    match member(v, key) {
        Some(m) => T::decode(m),
        None => None,
    }
}

/// Reads a member that may be missing or null.
fn optional_member<T: Decode>(v: &serde_json::Value, key: &str) -> (r: Option<Option<T>>)
    ensures
        match r {
            Some(item) => optional_field::<T>(json_of(*v), key@) == Some(view_of(item)),
            None => optional_field::<T>(json_of(*v), key@) is None,
        },
{
    match member(v, key) {
        None => Some(None),
        Some(m) => {
            if is_null(m) {
                Some(None)
            } else {
                match T::decode(m) {
                    Some(item) => Some(Some(item)),
                    None => None,
                }
            }
        },
    }
}

/// Copies documents as they are.
fn copy_items(items: &Vec<serde_json::Value>) -> (r: Vec<serde_json::Value>)
    ensures
        jsons_of(r@) == jsons_of(items@),
{
    let mut out: Vec<serde_json::Value> = Vec::new();
    let mut i: usize = 0;
    while i < items.len()
        invariant
            i <= items@.len(),
            out@.len() == i,
            forall|k: int| 0 <= k < i ==> json_of(#[trigger] out@[k]) == json_of(items@[k]),
        decreases items@.len() - i,
    {
        out.push(copy_of(&items[i]));
        i += 1;
    }
    assert(jsons_of(out@) =~= jsons_of(items@));
    out
}

/// Takes a member that is a list of anything, or missing, as it is.
fn raw_items_member_or_empty(v: &serde_json::Value, key: &str) -> (r: Option<
    Vec<serde_json::Value>,
>)
    ensures
        match r {
            Some(items) => list_field_or_empty(json_of(*v), key@) == Some(jsons_of(items@)),
            None => list_field_or_empty(json_of(*v), key@) is None,
        },
{
    match member(v, key) {
        None => {
            let out: Vec<serde_json::Value> = Vec::new();
            assert(jsons_of(out@) =~= Seq::<Json>::empty());
            Some(out)
        },
        Some(m) => match as_list(m) {
            Some(items) => Some(copy_items(items)),
            None => None,
        },
    }
}

/// Reads a list of items of one kind. Nothing is read as soon as one item is
/// refused.
pub fn decode_list<T: Decode>(items: &Vec<serde_json::Value>) -> (r: Option<Vec<T>>)
    ensures
        list_view(r) == list_from::<T>(jsons_of(items@)),
{
    let mut out: Vec<T> = Vec::new();
    let mut i: usize = 0;
    while i < items.len()
        invariant
            i <= items@.len(),
            out@.len() == i,
            forall|k: int|
                0 <= k < i ==> T::from_json(jsons_of(items@)[k]) == Some(#[trigger] out@[k]@),
        decreases items@.len() - i,
    {
        match T::decode(&items[i]) {
            Some(item) => {
                out.push(item);
            },
            None => {
                assert(T::from_json(jsons_of(items@)[i as int]) is None);
                return None;
            },
        }
        i += 1;
    }
    proof {
        let js = jsons_of(items@);
        assert forall|k: int| 0 <= k < js.len() implies T::from_json(#[trigger] js[k]) is Some by {
            assert(T::from_json(js[k]) == Some(out@[k]@));
        }
        assert(Seq::new(js.len(), |k: int| T::from_json(js[k])->0) =~= views(out@));
    }
    Some(out)
}

/// Reads a member that must be a list.
fn items_member<T: Decode>(v: &serde_json::Value, key: &str) -> (r: Option<Vec<T>>)
    ensures
        list_view(r) == items_field::<T>(json_of(*v), key@),
{
    match member(v, key) {
        Some(m) => match as_list(m) {
            Some(items) => decode_list(items),
            None => None,
        },
        None => None,
    }
}

/// Reads a member that is a list or is missing.
fn items_member_or_empty<T: Decode>(v: &serde_json::Value, key: &str) -> (r: Option<Vec<T>>)
    ensures
        list_view(r) == items_field_or_empty::<T>(json_of(*v), key@),
{
    match member(v, key) {
        None => {
            let out: Vec<T> = Vec::new();
            assert(views(out@) =~= Seq::<T::V>::empty());
            assert(list_from::<T>(Seq::<Json>::empty()) == Some(Seq::<T::V>::empty()));
            Some(out)
        },
        Some(m) => match as_list(m) {
            Some(items) => decode_list(items),
            None => None,
        },
    }
}

/// A string is read from a JSON string, and from nothing else.
impl Decode for String {
    open spec fn from_json(j: Json) -> Option<Seq<char>> {
        match j {
            Json::Text(s) => Some(s),
            _ => None,
        }
    }

    fn decode(v: &serde_json::Value) -> (r: Option<String>) {
        match as_text(v) {
            Some(s) => Some(s.to_owned()),
            None => None,
        }
    }
}

/// A license is an object with two strings, `name` and `url`.
impl Decode for License {
    open spec fn from_json(j: Json) -> Option<LicenseView> {
        match (required_field::<String>(j, "name"@), required_field::<String>(j, "url"@)) {
            (Some(name), Some(url)) => Some(LicenseView { name, url }),
            _ => None,
        }
    }

    fn decode(v: &serde_json::Value) -> (r: Option<License>) {
        let name = required_member::<String>(v, "name");
        let url = required_member::<String>(v, "url");
        match (name, url) {
            (Some(name), Some(url)) => Some(License { name, url }),
            _ => None,
        }
    }
}

/// A pronunciation is an object with a string `audio`. Its strings
/// `sourceUrl` and `text` and its license `license` are optional.
impl Decode for Phonetic {
    open spec fn from_json(j: Json) -> Option<PhoneticView> {
        match (
            required_field::<String>(j, "audio"@),
            optional_field::<String>(j, "sourceUrl"@),
            optional_field::<License>(j, "license"@),
            optional_field::<String>(j, "text"@),
        ) {
            (Some(audio), Some(source_url), Some(license), Some(text)) => Some(
                PhoneticView { audio, source_url, license, text },
            ),
            _ => None,
        }
    }

    fn decode(v: &serde_json::Value) -> (r: Option<Phonetic>) {
        let audio = required_member::<String>(v, "audio");
        let source_url = optional_member::<String>(v, "sourceUrl");
        let license = optional_member::<License>(v, "license");
        let text = optional_member::<String>(v, "text");
        match (audio, source_url, license, text) {
            (Some(audio), Some(source_url), Some(license), Some(text)) => Some(
                Phonetic { audio, source_url, license, text },
            ),
            _ => None,
        }
    }
}

/// A definition is an object with a string `definition`. Its string
/// `example` is optional; its lists `synonyms` and `antonyms` hold anything
/// and may be missing.
impl Decode for Definition {
    open spec fn from_json(j: Json) -> Option<DefinitionView> {
        match (
            required_field::<String>(j, "definition"@),
            list_field_or_empty(j, "synonyms"@),
            list_field_or_empty(j, "antonyms"@),
            optional_field::<String>(j, "example"@),
        ) {
            (Some(definition), Some(synonyms), Some(antonyms), Some(example)) => Some(
                DefinitionView { definition, synonyms, antonyms, example },
            ),
            _ => None,
        }
    }

    fn decode(v: &serde_json::Value) -> (r: Option<Definition>) {
        let definition = required_member::<String>(v, "definition");
        let synonyms = raw_items_member_or_empty(v, "synonyms");
        let antonyms = raw_items_member_or_empty(v, "antonyms");
        let example = optional_member::<String>(v, "example");
        match (definition, synonyms, antonyms, example) {
            (Some(definition), Some(synonyms), Some(antonyms), Some(example)) => Some(
                Definition { definition, synonyms, antonyms, example },
            ),
            _ => None,
        }
    }
}

/// A meaning is an object with a string `partOfSpeech` and a list of
/// definitions `definitions`.
impl Decode for Meaning {
    open spec fn from_json(j: Json) -> Option<MeaningView> {
        match (required_field::<String>(j, "partOfSpeech"@), items_field::<Definition>(j, "definitions"@)) {
            (Some(part_of_speech), Some(definitions)) => Some(
                MeaningView { part_of_speech, definitions },
            ),
            _ => None,
        }
    }

    fn decode(v: &serde_json::Value) -> (r: Option<Meaning>) {
        let part_of_speech = required_member::<String>(v, "partOfSpeech");
        let definitions = items_member::<Definition>(v, "definitions");
        match (part_of_speech, definitions) {
            (Some(part_of_speech), Some(definitions)) => Some(
                Meaning { part_of_speech, definitions },
            ),
            _ => None,
        }
    }
}

/// An entry is an object with a string `word`, a list of pronunciations
/// `phonetics`, a list of meanings `meanings`, a license `license` and a list
/// of strings `sourceUrls`. Its lists of strings `synonyms` and `antonyms`
/// may be missing.
impl Decode for WordEntry {
    open spec fn from_json(j: Json) -> Option<WordEntryView> {
        match (
            required_field::<String>(j, "word"@),
            items_field::<Phonetic>(j, "phonetics"@),
            items_field::<Meaning>(j, "meanings"@),
            items_field_or_empty::<String>(j, "synonyms"@),
            items_field_or_empty::<String>(j, "antonyms"@),
            required_field::<License>(j, "license"@),
            items_field::<String>(j, "sourceUrls"@),
        ) {
            (
                Some(word),
                Some(phonetics),
                Some(meanings),
                Some(synonyms),
                Some(antonyms),
                Some(license),
                Some(source_urls),
            ) => Some(
                WordEntryView { word, phonetics, meanings, synonyms, antonyms, license, source_urls },
            ),
            _ => None,
        }
    }

    fn decode(v: &serde_json::Value) -> (r: Option<WordEntry>) {
        let word = required_member::<String>(v, "word");
        let phonetics = items_member::<Phonetic>(v, "phonetics");
        let meanings = items_member::<Meaning>(v, "meanings");
        let synonyms = items_member_or_empty::<String>(v, "synonyms");
        let antonyms = items_member_or_empty::<String>(v, "antonyms");
        let license = required_member::<License>(v, "license");
        let source_urls = items_member::<String>(v, "sourceUrls");
        match (word, phonetics, meanings, synonyms, antonyms, license, source_urls) {
            (
                Some(word),
                Some(phonetics),
                Some(meanings),
                Some(synonyms),
                Some(antonyms),
                Some(license),
                Some(source_urls),
            ) => Some(
                WordEntry { word, phonetics, meanings, synonyms, antonyms, license, source_urls },
            ),
            _ => None,
        }
    }
}

/// Reads the entries of an answer from its document.
pub fn decode_entries(v: &serde_json::Value) -> (r: Option<Vec<WordEntry>>)
    ensures
        list_view(r) == entries_from(json_of(*v)),
{
    match as_list(v) {
        Some(items) => decode_list(items),
        None => None,
    }
}

/// Reads the entries of an answer from its text.
pub fn read_entries(body: &[u8]) -> (r: Option<Vec<WordEntry>>)
    ensures
        list_view(r) == entries_read(body@),
{
    match read_json(body) {
        Ok(v) => decode_entries(&v),
        Err(_) => None,
    }
}

} // verus!
