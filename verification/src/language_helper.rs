//! Interface texts in the languages of the panel: looking a text up by key, the
//! current language, and reading the resource file that holds the texts.
use vstd::prelude::*;
use std::collections::BTreeMap;
use crate::str_table::StrKeyTable;

verus! {

/// The languages of the interface.
#[derive(Clone, Copy, Debug, PartialEq, Eq, Structural)]
pub enum Language {
    ZhCn,
    EnUs,
}

/// The name under which a language is displayed.
pub open spec fn language_name(l: Language) -> Seq<char> {
    match l {
        Language::ZhCn => "ZhCn"@,
        Language::EnUs => "EnUs"@,
    }
}

impl Language {
    /// The display name of the language, `"ZhCn"` or `"EnUs"`.
    pub fn name(&self) -> (res: String)
        ensures
            res@ == language_name(*self),
    {
        match self {
            Language::ZhCn => String::from_str("ZhCn"),
            Language::EnUs => String::from_str("EnUs"),
        }
    }
}

/// The texts of a table of strings.
pub open spec fn texts_of(m: Map<Seq<char>, String>) -> Map<Seq<char>, Seq<char>> {
    m.map_values(|s: String| s@)
}

/// The text of `key` in `language`, or `"Not Found"` when that language has no
/// text for it (there is no fallback to the other language).
pub open spec fn lookup_text(
    lang_res_ch: Map<Seq<char>, String>,
    lang_res_en: Map<Seq<char>, String>,
    key: Seq<char>,
    language: Language,
) -> Seq<char> {
    if language == Language::ZhCn && lang_res_ch.contains_key(key) {
        lang_res_ch[key]@
    } else if language == Language::EnUs && lang_res_en.contains_key(key) {
        lang_res_en[key]@
    } else {
        "Not Found"@
    }
}

/// The interface texts of both languages and the language currently chosen.
pub struct LanguageHelper {
    pub current_lang: Language,
    pub lang_res_ch: StrKeyTable<String>,
    pub lang_res_en: StrKeyTable<String>,
}

impl LanguageHelper {
    /// A helper over the given Chinese and English texts; the current language
    /// is English.
    pub fn new(lang_res_ch: StrKeyTable<String>, lang_res_en: StrKeyTable<String>) -> (res: Self)
        ensures
            res.current_lang == Language::EnUs,
            res.lang_res_ch == lang_res_ch,
            res.lang_res_en == lang_res_en,
    {
        LanguageHelper { current_lang: Language::EnUs, lang_res_ch, lang_res_en }
    }

    /// The language currently chosen.
    pub fn get_current_lang(&self) -> (res: &Language)
        ensures
            *res == self.current_lang,
    {
        &self.current_lang
    }

    fn lookup(&self, string_key: &str, language: &Language) -> (res: String)
        ensures
            res@ == lookup_text(self.lang_res_ch@, self.lang_res_en@, string_key@, *language),
    {
        if *language == Language::ZhCn {
            if let Some(text) = self.lang_res_ch.get(string_key) {
                return text.clone();
            }
        }
        if *language == Language::EnUs {
            if let Some(text) = self.lang_res_en.get(string_key) {
                return text.clone();
            }
        }
        String::from_str("Not Found")
    }

    /// The text of `string_key` in `language` (see [`lookup_text`]).
    pub fn get_string_from_str(&self, string_key: &str, language: &Language) -> (res: String)
        ensures
            res@ == lookup_text(self.lang_res_ch@, self.lang_res_en@, string_key@, *language),
    {
        self.lookup(string_key, language)
    }

    /// The text of `string_key` in `language` (see [`lookup_text`]).
    pub fn get_string_from_string(&self, string_key: &str, language: &Language) -> (res: String)
        ensures
            res@ == lookup_text(self.lang_res_ch@, self.lang_res_en@, string_key@, *language),
    {
        self.lookup(string_key, language)
    }

    /// Chooses the current language; the texts stay as they are.
    pub fn switch_current_lang(&mut self, current_language: Language)
        ensures
            final(self).current_lang == current_language,
            final(self).lang_res_ch == old(self).lang_res_ch,
            final(self).lang_res_en == old(self).lang_res_en,
    {
        self.current_lang = current_language;
    }
}

/// The name of the Chinese table in the resource file.
pub open spec fn zh_cn_table_name() -> Seq<char> {
    "zh_CN"@
}

/// The name of the English table in the resource file.
pub open spec fn en_us_table_name() -> Seq<char> {
    "en_US"@
}

/// The texts of a list of pairs of strings.
pub open spec fn pairs_view(p: Seq<(String, String)>) -> Seq<(Seq<char>, Seq<char>)> {
    p.map_values(|q: (String, String)| (q.0@, q.1@))
}

/// The texts of a list of named tables.
pub open spec fn tables_view(t: Seq<(String, Vec<(String, String)>)>) -> Seq<(Seq<char>, Seq<(Seq<char>, Seq<char>)>)> {
    t.map_values(|e: (String, Vec<(String, String)>)| (e.0@, pairs_view(e.1@)))
}

/// What the toml crate reads from a text as tables of strings (a document whose
/// every top-level entry is a table whose every entry is a string): the tables
/// by name, and in each the pairs of key and text, both in key order.
pub uninterp spec fn toml_string_tables(text: Seq<char>) -> Option<Seq<(Seq<char>, Seq<(Seq<char>, Seq<char>)>)>>;

/// `toml::from_str` into tables of strings (kept in key order), handed out as
/// lists of pairs.
#[verifier::external_body]
fn parse_string_tables(text: &str) -> (res: Option<Vec<(String, Vec<(String, String)>)>>)
    ensures
        res is Some <==> toml_string_tables(text@) is Some,
        res matches Some(tables) ==> tables_view(tables@) == toml_string_tables(text@).unwrap(),
{
    toml::from_str::<BTreeMap<String, BTreeMap<String, String>>>(text).ok().map(
        |tables| tables.into_iter().map(|(name, table)| (name, table.into_iter().collect())).collect(),
    )
}

/// The text that the toml crate writes for tables with these names and no entries.
pub uninterp spec fn toml_text_of_empty_tables(names: Seq<Seq<char>>) -> Seq<char>;

/// `toml::to_string` on tables with these names and no entries. Its documentation
/// names the only ways it fails (a failing `Serialize`, a map with keys that are
/// not strings, an unsupported type such as an enum or tuple); a map from strings
/// to maps from strings to strings has none of them, so it always succeeds.
#[verifier::external_body]
fn empty_tables_text(names: &Vec<String>) -> (res: Option<String>)
    ensures
        res is Some,
        res matches Some(text) ==> text@ == toml_text_of_empty_tables(names@.map_values(|n: String| n@)),
{
    let tables: BTreeMap<String, BTreeMap<String, String>> = names.iter().map(|n| (n.clone(), BTreeMap::new())).collect();
    toml::to_string(&tables).ok()
}

/// The pairs of the first table named `name` in a list of named tables.
pub open spec fn table_named(
    tables: Seq<(Seq<char>, Seq<(Seq<char>, Seq<char>)>)>,
    name: Seq<char>,
) -> Option<Seq<(Seq<char>, Seq<char>)>>
    decreases tables.len(),
{
    if tables.len() == 0 {
        None
    } else if tables[0].0 == name {
        Some(tables[0].1)
    } else {
        table_named(tables.drop_first(), name)
    }
}

/// The map that a list of pairs describes (later pairs win).
pub open spec fn pairs_map(p: Seq<(Seq<char>, Seq<char>)>) -> Map<Seq<char>, Seq<char>>
    decreases p.len(),
{
    if p.len() == 0 {
        Map::empty()
    } else {
        pairs_map(p.drop_last()).insert(p.last().0, p.last().1)
    }
}

/// The texts that a resource file holds: the Chinese and the English table,
/// when the file is tables of strings and holds both of them.
pub open spec fn resources_of_text(text: Seq<char>) -> Option<(Map<Seq<char>, Seq<char>>, Map<Seq<char>, Seq<char>>)> {
    match toml_string_tables(text) {
        Some(tables) => match (table_named(tables, zh_cn_table_name()), table_named(tables, en_us_table_name())) {
            (Some(ch), Some(en)) => Some((pairs_map(ch), pairs_map(en))),
            _ => None,
        },
        None => None,
    }
}

fn find_table(tables: &Vec<(String, Vec<(String, String)>)>, name: &String) -> (res: Option<usize>)
    ensures
        match res {
            Some(i) => i < tables@.len() && table_named(tables_view(tables@), name@) == Some(
                pairs_view(tables@[i as int].1@),
            ),
            None => table_named(tables_view(tables@), name@) is None,
        },
{
    let n = tables.len();
    let mut i: usize = 0;
    let ghost view = tables_view(tables@);
    assert(view.skip(0) =~= view);
    while i < n
        invariant
            n == tables@.len(),
            i <= n,
            view == tables_view(tables@),
            table_named(view, name@) == table_named(view.skip(i as int), name@),
        decreases n - i,
    {
        let ghost rest = view.skip(i as int);
        assert(rest[0] == view[i as int]);
        if tables[i].0 == *name {
            return Some(i);
        }
        assert(rest.drop_first() =~= view.skip(i + 1));
        i = i + 1;
    }
    None
}

fn table_of_pairs(pairs: &Vec<(String, String)>) -> (res: StrKeyTable<String>)
    ensures
        texts_of(res@) == pairs_map(pairs_view(pairs@)),
{
    let mut table: StrKeyTable<String> = StrKeyTable::new();
    let n = pairs.len();
    let mut i: usize = 0;
    assert(texts_of(table@) =~= pairs_map(pairs_view(pairs@).take(0)));
    while i < n
        invariant
            n == pairs@.len(),
            i <= n,
            texts_of(table@) == pairs_map(pairs_view(pairs@).take(i as int)),
        decreases n - i,
    {
        let key = pairs[i].0.clone();
        let text = pairs[i].1.clone();
        let ghost before = table@;
        table.insert(key, text);
        proof {
            let pv = pairs_view(pairs@);
            assert(pv.take(i + 1).drop_last() =~= pv.take(i as int));
            assert(pv.take(i + 1).last() == pv[i as int]);
            assert(texts_of(table@) =~= texts_of(before).insert(pv[i as int].0, pv[i as int].1));
        }
        i = i + 1;
    }
    assert(pairs_view(pairs@).take(n as int) =~= pairs_view(pairs@));
    table
}

/// Reads the Chinese and English texts from the content of the resource file:
/// `None` when the content is not tables of strings or lacks one of the two
/// tables, in which case the caller writes a fresh file.
pub fn lang_resources_from_text(content: &str) -> (res: Option<(StrKeyTable<String>, StrKeyTable<String>)>)
    ensures
        match res {
            Some((ch, en)) => resources_of_text(content@) == Some((texts_of(ch@), texts_of(en@))),
            None => resources_of_text(content@) is None,
        },
{
    match parse_string_tables(content) {
        Some(tables) => {
            let zh = String::from_str("zh_CN");
            let en = String::from_str("en_US");
            proof {
                reveal_strlit("zh_CN");
                reveal_strlit("en_US");
            }
            let zh_index = find_table(&tables, &zh);
            let en_index = find_table(&tables, &en);
            match (zh_index, en_index) {
                (Some(i), Some(j)) => {
                    let ch_table = table_of_pairs(&tables[i].1);
                    let en_table = table_of_pairs(&tables[j].1);
                    Some((ch_table, en_table))
                },
                _ => None,
            }
        },
        None => None,
    }
}

/// The content of a fresh resource file: an empty Chinese and an empty English
/// table, as the toml crate writes them; writing them always succeeds.
pub fn default_lang_resource_text() -> (res: Option<String>)
    ensures
        res is Some,
        res matches Some(text) ==> text@ == toml_text_of_empty_tables(
            seq![zh_cn_table_name(), en_us_table_name()],
        ),
{
    let mut names: Vec<String> = Vec::new();
    names.push(String::from_str("zh_CN"));
    names.push(String::from_str("en_US"));
    proof {
        reveal_strlit("zh_CN");
        reveal_strlit("en_US");
        assert(names@.map_values(|n: String| n@) =~= seq![zh_cn_table_name(), en_us_table_name()]);
    }
    empty_tables_text(&names)
}

/// A lookup in one language reads that language's table only: the other
/// language's texts never change its result. A key that the table has gives its
/// text, and one that it lacks gives `"Not Found"`.
pub proof fn lemma_lookup_reads_own_language(
    ch: Map<Seq<char>, String>,
    ch2: Map<Seq<char>, String>,
    en: Map<Seq<char>, String>,
    en2: Map<Seq<char>, String>,
    key: Seq<char>,
)
    ensures
        lookup_text(ch, en, key, Language::ZhCn) == lookup_text(ch, en2, key, Language::ZhCn),
        lookup_text(ch, en, key, Language::EnUs) == lookup_text(ch2, en, key, Language::EnUs),
        ch.contains_key(key) ==> lookup_text(ch, en, key, Language::ZhCn) == ch[key]@,
        !ch.contains_key(key) ==> lookup_text(ch, en, key, Language::ZhCn) == "Not Found"@,
        en.contains_key(key) ==> lookup_text(ch, en, key, Language::EnUs) == en[key]@,
        !en.contains_key(key) ==> lookup_text(ch, en, key, Language::EnUs) == "Not Found"@,
{
}

} // verus!
