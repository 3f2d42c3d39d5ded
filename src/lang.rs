//! Translation lookup: a table from message keys to localized text, loaded
//! from a JSON object of strings.
use vstd::prelude::*;
use crate::catalog::ModelType;

verus! {

/// The key/value pairs of a JSON text that is an object whose values are all
/// strings, in ascending key order; `None` for any other text.
pub uninterp spec fn json_string_map(text: Seq<char>) -> Option<Seq<(Seq<char>, Seq<char>)>>;

/// Key/value pairs of strings, seen as character sequences.
pub open spec fn entries_view(v: Seq<(String, String)>) -> Seq<(Seq<char>, Seq<char>)> {
    v.map_values(|p: (String, String)| (p.0@, p.1@))
}

/// The value of the last entry whose key is `key`, if any.
pub open spec fn lookup(entries: Seq<(Seq<char>, Seq<char>)>, key: Seq<char>) -> Option<Seq<char>>
    decreases entries.len(),
{
    if entries.len() == 0 {
        None
    } else if entries.last().0 == key {
        Some(entries.last().1)
    } else {
        lookup(entries.drop_last(), key)
    }
}

/// The translation of `key`, or the key itself where the table has none.
pub open spec fn translate(entries: Seq<(Seq<char>, Seq<char>)>, key: Seq<char>) -> Seq<char> {
    match lookup(entries, key) {
        Some(v) => v,
        None => key,
    }
}

/// Relies on `serde_json::from_str` into a `BTreeMap<String, String>`: it
/// succeeds exactly on a JSON object of strings, and the map's pairs come out
/// in key order.
#[verifier::external_body]
fn parse_string_map(text: &str) -> (r: Option<Vec<(String, String)>>)
    ensures
        r is Some <==> json_string_map(text@) is Some,
        r matches Some(v) ==> entries_view(v@) == json_string_map(text@)->0,
{
    serde_json::from_str::<std::collections::BTreeMap<String, String>>(text).ok().map(
        |m| m.into_iter().collect(),
    )
}

/// The active language and its table of translations.
#[derive(Clone)]
pub struct LanguageManager {
    translations: Vec<(String, String)>,
    current_lang: String,
}

impl LanguageManager {
    /// The translation table.
    pub closed spec fn entries(&self) -> Seq<(Seq<char>, Seq<char>)> {
        entries_view(self.translations@)
    }

    /// The code of the active language.
    pub closed spec fn lang(&self) -> Seq<char> {
        self.current_lang@
    }

    /// Replaces the table with the one in `content`, a JSON object of strings,
    /// and makes `lang_code` the active language. Content that is not such an
    /// object leaves everything as it was.
    pub fn load_language(&mut self, lang_code: &str, content: &str)
        ensures
            json_string_map(content@) matches Some(m) ==> final(self).entries() == m
                && final(self).lang() == lang_code@,
            json_string_map(content@) is None ==> final(self).entries() == old(self).entries()
                && final(self).lang() == old(self).lang(),
    {
        match parse_string_map(content) {
            Some(map) => {
                self.translations = map;
                self.current_lang = lang_code.to_string();
            },
            None => {},
        }
    }

    /// The translation of `key`, or `key` itself where the table has none.
    pub fn t(&self, key: &str) -> (r: String)
        ensures
            r@ == translate(self.entries(), key@),
    {
        let wanted = key.to_string();
        let ghost entries = self.entries();
        let mut i: usize = self.translations.len();
        assert(entries.subrange(0, i as int) =~= entries);
        while i > 0
            invariant
                i <= self.translations@.len(),
                entries == self.entries(),
                wanted@ == key@,
                lookup(entries, key@) == lookup(entries.subrange(0, i as int), key@),
            decreases i,
        {
            i = i - 1;
            let entry = &self.translations[i];
            assert(entries.subrange(0, i + 1 as int).drop_last() =~= entries.subrange(0, i as int));
            if entry.0 == wanted {
                return entry.1.clone();
            }
        }
        assert(entries.subrange(0, 0) =~= Seq::<(Seq<char>, Seq<char>)>::empty());
        wanted
    }

    /// The code of the active language.
    pub fn current_lang(&self) -> (r: String)
        ensures
            r@ == self.lang(),
    {
        self.current_lang.clone()
    }
}

impl Default for LanguageManager {
    /// English, with an empty table: every key stands for itself until a
    /// table is loaded.
    fn default() -> (r: Self)
        ensures
            r.entries().len() == 0,
            r.lang() == "en"@,
    {
        LanguageManager { translations: Vec::new(), current_lang: "en".to_string() }
    }
}

/// The translation key of a model's description.
pub open spec fn description_key(model: ModelType) -> Seq<char> {
    match model {
        ModelType::U2Net => "desc_u2net"@,
        ModelType::U2NetP => "desc_u2netp"@,
        ModelType::U2NetHumanSeg => "desc_u2net_human"@,
        ModelType::U2NetClothSeg => "desc_u2net_cloth"@,
        ModelType::Silueta => "desc_silueta"@,
        ModelType::IsNetGeneralUse => "desc_isnet_general"@,
        ModelType::IsNetAnime => "desc_isnet_anime"@,
        ModelType::Sam => "desc_sam"@,
        ModelType::BiRefNetGeneral => "desc_birefnet_general"@,
        ModelType::BiRefNetGeneralLite => "desc_birefnet_general"@,
        ModelType::BiRefNetPortrait => "desc_birefnet_portrait"@,
        ModelType::BiRefNetDis => "desc_birefnet_dis"@,
        ModelType::BiRefNetHrsod => "desc_birefnet_hrsod"@,
        ModelType::BiRefNetCod => "desc_birefnet_cod"@,
        ModelType::BiRefNetMassive => "desc_birefnet_massive"@,
        ModelType::BriaRmbg => "desc_briarmbg"@,
    }
}

/// The localized description of `model`.
pub fn get_model_description_localized(lang: &LanguageManager, model: ModelType) -> (r: String)
    ensures
        r@ == translate(lang.entries(), description_key(model)),
{
    let key = match model {
        ModelType::U2Net => "desc_u2net",
        ModelType::U2NetP => "desc_u2netp",
        ModelType::U2NetHumanSeg => "desc_u2net_human",
        ModelType::U2NetClothSeg => "desc_u2net_cloth",
        ModelType::Silueta => "desc_silueta",
        ModelType::IsNetGeneralUse => "desc_isnet_general",
        ModelType::IsNetAnime => "desc_isnet_anime",
        ModelType::Sam => "desc_sam",
        ModelType::BiRefNetGeneral => "desc_birefnet_general",
        ModelType::BiRefNetGeneralLite => "desc_birefnet_general",
        ModelType::BiRefNetPortrait => "desc_birefnet_portrait",
        ModelType::BiRefNetDis => "desc_birefnet_dis",
        ModelType::BiRefNetHrsod => "desc_birefnet_hrsod",
        ModelType::BiRefNetCod => "desc_birefnet_cod",
        ModelType::BiRefNetMassive => "desc_birefnet_massive",
        ModelType::BriaRmbg => "desc_briarmbg",
    };
    lang.t(key)
}

} // verus!
