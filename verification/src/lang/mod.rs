//! Language tables: for each language, the messages that the bot sends,
//! with named parameters to fill in.
//!
//! A message is a base text in which each parameter `name` stands as `[name]`;
//! running the message with one value per parameter puts the values in place.

pub mod error;
pub mod laws;
pub mod map;

use self::error::{lemma_from_counts, LanguageError, LanguageErrorType};
use self::map::StrMap;
use crate::star_error::StarError;
use crate::text::{chars_of, find_char_from, first_index_of, push_char, replace, replace_all};
use std::sync::Arc;
use vstd::prelude::*;
use vstd::string::StringExecFns;

verus! {

/// The views of a list of strings.
pub open spec fn string_views(s: Seq<String>) -> Seq<Seq<char>> {
    s.map_values(|x: String| x@)
}

/// The placeholder that stands for the parameter `name` in a message: `[name]`.
pub open spec fn placeholder(name: Seq<char>) -> Seq<char> {
    seq!['['] + name + seq![']']
}

/// `base` with the placeholder of each parameter in `names` replaced, in
/// order, by the value at the same position in `values`.
pub open spec fn fill_params(base: Seq<char>, names: Seq<Seq<char>>, values: Seq<Seq<char>>) -> Seq<
    char,
>
    decreases names.len(),
{
    if names.len() == 0 {
        base
    } else {
        replace_all(
            fill_params(base, names.drop_last(), values.drop_last()),
            placeholder(names.last()),
            values[names.len() - 1],
        )
    }
}

/// The placeholder of a message parameter.
#[derive(Debug, Clone)]
struct LangFormatter(String);

impl LangFormatter {
    /// The placeholder of the parameter `val`.
    fn from(val: String) -> (r: Self)
        ensures
            r.0@ == val@,
    {
        Self(val)
    }

    /// The placeholder, such as `[name]`.
    fn to_string(&self) -> (r: String)
        ensures
            r@ == placeholder(self.0@),
    {
        let mut s = String::new();
        push_char(&mut s, '[');
        s.append(self.0.as_str());
        push_char(&mut s, ']');
        assert(s@ =~= placeholder(self.0@));
        s
    }
}

/// A message of a language, with its parameters.
#[derive(Debug, Default)]
pub struct LanguageEntry {
    base: String,
    params: Vec<String>,
}

impl LanguageEntry {
    /// The text of the message.
    pub closed spec fn spec_base(&self) -> Seq<char> {
        self.base@
    }

    /// The names of the message's parameters.
    pub closed spec fn spec_params(&self) -> Seq<Seq<char>> {
        string_views(self.params@)
    }

    /// The message with no text and no parameters.
    pub fn new() -> (r: Self)
        ensures
            r.spec_base() == Seq::<char>::empty(),
            r.spec_params() == Seq::<Seq<char>>::empty(),
    {
        let r = LanguageEntry { base: String::new(), params: Vec::new() };
        assert(r.spec_params() =~= Seq::<Seq<char>>::empty());
        r
    }

    /// The message with text `base` and parameters `params`.
    pub fn from_parts(base: String, params: Vec<String>) -> (r: Self)
        ensures
            r.spec_base() == base@,
            r.spec_params() == string_views(params@),
    {
        LanguageEntry { base, params }
    }

    /// The text of the message, placeholders included.
    pub fn base(&self) -> (r: &String)
        ensures
            r@ == self.spec_base(),
    {
        &self.base
    }

    /// The names of the message's parameters.
    pub fn params(&self) -> (r: &Vec<String>)
        ensures
            string_views(r@) == self.spec_params(),
    {
        &self.params
    }

    /// The message's text, for a message without parameters.
    pub fn run(&self) -> (r: Result<String, LanguageError>)
        ensures
            match r {
                Ok(s) => self.spec_params().len() == 0 && s@ == self.spec_base(),
                Err(e) => self.spec_params().len() != 0 && e.spec_kind()
                    == (LanguageErrorType::InvalidParams {
                    expected: self.spec_params().len() as usize,
                    found: 0,
                }) && e.spec_source() is None,
            },
    {
        if self.params.len() != 0 {
            proof {
                lemma_from_counts((self.params.len(), 0));
            }
            return Err(LanguageError::from((self.params.len(), 0usize)));
        }
        Ok(self.base.clone())
    }

    /// The message's text with each parameter's placeholder replaced, in
    /// order, by the value at the same position in `params`.
    pub fn run_params(&self, params: &[&str]) -> (r: Result<String, LanguageError>)
        ensures
            match r {
                Ok(s) => params@.len() == self.spec_params().len() && s@ == fill_params(
                    self.spec_base(),
                    self.spec_params(),
                    params@.map_values(|v: &str| v@),
                ),
                Err(e) => params@.len() != self.spec_params().len() && e.spec_kind()
                    == (LanguageErrorType::InvalidParams {
                    expected: self.spec_params().len() as usize,
                    found: params@.len() as usize,
                }) && e.spec_source() is None,
            },
    {
        if params.len() != self.params.len() {
            proof {
                lemma_from_counts((self.params.len(), params.len()));
            }
            return Err(LanguageError::from((self.params.len(), params.len())));
        }
        let ghost names = self.spec_params();
        let ghost values = params@.map_values(|v: &str| v@);
        let mut base = self.base.clone();
        let mut idx: usize = 0;
        while idx < self.params.len()
            invariant
                params@.len() == self.params@.len(),
                names == string_views(self.params@),
                values == params@.map_values(|v: &str| v@),
                idx <= self.params@.len(),
                base@ == fill_params(
                    self.base@,
                    names.take(idx as int),
                    values.take(idx as int),
                ),
            decreases self.params.len() - idx,
        {
            let formatter = LangFormatter::from(self.params[idx].clone());
            let pattern = formatter.to_string();
            base = replace(base.as_str(), pattern.as_str(), params[idx]);
            proof {
                let n1 = names.take(idx + 1);
                let v1 = values.take(idx + 1);
                assert(n1.drop_last() =~= names.take(idx as int));
                assert(v1.drop_last() =~= values.take(idx as int));
                assert(n1.last() == self.params@[idx as int]@);
                assert(v1[n1.len() - 1] == params@[idx as int]@);
            }
            idx += 1;
        }
        proof {
            assert(names.take(names.len() as int) =~= names);
            assert(values.take(values.len() as int) =~= values);
        }
        Ok(base)
    }
}

impl Clone for LanguageEntry {
    fn clone(&self) -> (r: Self)
        ensures
            r.spec_base() == self.spec_base(),
            r.spec_params() == self.spec_params(),
    {
        let mut params: Vec<String> = Vec::new();
        let mut i: usize = 0;
        while i < self.params.len()
            invariant
                i <= self.params@.len(),
                string_views(params@) == string_views(self.params@.take(i as int)),
            decreases self.params.len() - i,
        {
            let ghost prev = params@;
            let c = self.params[i].clone();
            params.push(c);
            proof {
                assert(params@ =~= prev.push(c));
                assert(string_views(prev.push(c)) =~= string_views(prev).push(c@));
                assert(self.params@.take(i + 1) =~= self.params@.take(i as int).push(self.params@[i as int]));
                assert(string_views(self.params@.take(i as int).push(self.params@[i as int])) =~= string_views(self.params@.take(i as int)).push(self.params@[i as int]@));
            }
            i += 1;
        }
        assert(self.params@.take(self.params@.len() as int) =~= self.params@);
        LanguageEntry { base: self.base.clone(), params }
    }
}

/// The value of the key `key` in `map`, cloned.
fn lang_get<Rt: Clone>(map: &StrMap<Rt>, key: &str) -> (r: Option<Rt>)
    ensures
        match r {
            Some(v) => map@.contains_key(key@) && cloned::<Rt>(map@[key@], v),
            None => !map@.contains_key(key@),
        },
{
    match map.get(key) {
        Some(v) => Some(v.clone()),
        None => None,
    }
}

/// The messages of one language, by key.
#[derive(Debug)]
pub struct Language(StrMap<LanguageEntry>);

impl Language {
    /// The messages, by key.
    pub closed spec fn view(&self) -> Map<Seq<char>, LanguageEntry> {
        self.0@
    }

    /// The language with no message.
    pub fn new() -> (r: Self)
        ensures
            r@ == Map::<Seq<char>, LanguageEntry>::empty(),
    {
        Language(StrMap::new())
    }

    /// The number of messages.
    pub fn len(&self) -> (r: usize)
        ensures
            r == self@.len(),
    {
        self.0.len()
    }

    /// Sets the message of the key `key` to `entry`.
    pub fn insert(&mut self, key: String, entry: LanguageEntry)
        ensures
            final(self)@ == old(self)@.insert(key@, entry),
    {
        self.0.insert(key, entry);
    }

    /// The message of the key `key`, if there is one.
    pub fn get(&self, key: &str) -> (r: Option<LanguageEntry>)
        ensures
            match r {
                Some(e) => self@.contains_key(key@) && e.spec_base() == self@[key@].spec_base()
                    && e.spec_params() == self@[key@].spec_params(),
                None => !self@.contains_key(key@),
            },
    {
        lang_get(&self.0, key)
    }
}

/// `Arc::clone` of std: another pointer to the same value.
#[verifier::external_body]
fn share<T>(value: &Arc<T>) -> (r: Arc<T>)
    ensures
        r == *value,
{
    Arc::clone(value)
}

/// The languages, by name.
#[derive(Debug)]
pub struct LangMap(StrMap<Arc<Language>>);

impl LangMap {
    /// The languages, by name.
    pub closed spec fn view(&self) -> Map<Seq<char>, Arc<Language>> {
        self.0@
    }

    /// The map with no language.
    pub fn new() -> (r: Self)
        ensures
            r@ == Map::<Seq<char>, Arc<Language>>::empty(),
    {
        LangMap(StrMap::new())
    }

    /// The number of languages.
    pub fn len(&self) -> (r: usize)
        ensures
            r == self@.len(),
    {
        self.0.len()
    }

    /// The language of the name `key`, if there is one.
    pub fn get(&self, key: &str) -> (r: Option<Arc<Language>>)
        ensures
            match r {
                Some(l) => self@.contains_key(key@) && l == self@[key@],
                None => !self@.contains_key(key@),
            },
    {
        match self.0.get(key) {
            Some(l) => Some(share(l)),
            None => None,
        }
    }

    /// Sets the language of the name `filename` to `entry`.
    pub fn insert(&mut self, filename: String, entry: Language)
        ensures
            final(self)@ == old(self)@.insert(filename@, Arc::new(entry)),
    {
        self.0.insert(filename, Arc::new(entry));
    }
}

/// Where the extension of the file name `name` begins, if it has one: just
/// after its last `.`, unless that dot is the first character.
pub open spec fn extension_start(name: Seq<char>) -> Option<int> {
    if exists|k: int| 0 < k < name.len() && name[k] == '.' {
        let k = choose|k: int| 0 < k < name.len() && name[k] == '.' && forall|j: int| k < j < name.len() ==> name[j] != '.';
        Some(k + 1)
    } else {
        None
    }
}

/// The name under which the language in the file `file_name` is known: the
/// file name without `.json`, for a file whose extension is `json`.
pub open spec fn language_key_spec(file_name: Seq<char>) -> Option<Seq<char>> {
    match extension_start(file_name) {
        Some(k) => if file_name.skip(k) == seq!['j', 's', 'o', 'n'] {
            Some(replace_all(file_name, seq!['.', 'j', 's', 'o', 'n'], Seq::empty()))
        } else {
            None
        },
        None => None,
    }
}

/// Where the extension of the file name `cs` begins, if it has one.
fn find_extension(cs: &[char]) -> (r: Option<usize>)
    ensures
        match r {
            Some(k) => extension_start(cs@) == Some(k as int) && k <= cs@.len(),
            None => extension_start(cs@) is None,
        },
{
    let len = cs.len();
    let mut i = len;
    while i > 1
        invariant
            len == cs@.len(),
            1 <= i <= len || (i == len && len <= 1),
            forall|j: int| i <= j < len ==> cs@[j] != '.',
        decreases i,
    {
        if cs[i - 1] == '.' {
            let k = i - 1;
            proof {
                let w = choose|w: int|
                    0 < w < cs@.len() && cs@[w] == '.' && forall|j: int| w < j < cs@.len() ==> cs@[j] != '.';
                assert(0 < k < cs@.len() && cs@[k as int] == '.' && forall|j: int| k < j < cs@.len() ==> cs@[j] != '.');
                assert(0 < w < cs@.len() && cs@[w] == '.');
                if w < k {
                    assert(cs@[k as int] != '.');
                } else if w > k {
                    assert(cs@[w] != '.');
                }
            }
            return Some(i);
        }
        i -= 1;
    }
    None
}

/// The name under which the language in the file `file_name` is known, if
/// the file is a language table: the file name without `.json`, for a file
/// whose extension is `json`.
pub fn language_key(file_name: &str) -> (r: Option<String>)
    ensures
        match r {
            Some(k) => language_key_spec(file_name@) == Some(k@),
            None => language_key_spec(file_name@) is None,
        },
{
    let cs = chars_of(file_name);
    match find_extension(cs.as_slice()) {
        Some(k) => {
            let ext = vstd::slice::slice_subrange(cs.as_slice(), k, cs.len());
            let json = chars_of("json");
            proof {
                reveal_strlit("json");
                assert(json@ =~= seq!['j', 's', 'o', 'n']);
            }
            assert(ext@ =~= cs@.skip(k as int));
            if crate::text::chars_eq(ext, json.as_slice()) {
                proof {
                    reveal_strlit(".json");
                    reveal_strlit("");
                    assert(".json"@ =~= seq!['.', 'j', 's', 'o', 'n']);
                    assert(""@ =~= Seq::<char>::empty());
                }
                let r = replace(file_name, ".json", "");
                Some(r)
            } else {
                proof {
                    assert(json@ =~= seq!['j', 's', 'o', 'n']);
                }
                None
            }
        },
        None => None,
    }
}

} // verus!
