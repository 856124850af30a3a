use vstd::prelude::*;
use vstd::string::StringExecFns;

use crypto::digest::Digest;

verus! {

/// One saved fiddle: the schema, query and version texts as submitted, and
/// the identity that saved it, if any.
#[derive(Debug)]
pub struct SaveRecord {
    pub schema: String,
    pub query: String,
    pub version: String,
    pub owner: Option<String>,
}

impl Clone for SaveRecord {
    fn clone(&self) -> (res: Self)
        ensures
            res == *self,
    {
        SaveRecord {
            schema: self.schema.clone(),
            query: self.query.clone(),
            version: self.version.clone(),
            owner: match &self.owner {
                Some(o) => Some(o.clone()),
                None => None,
            },
        }
    }
}

/// The digest input: the query, schema and version texts concatenated in
/// that order.
pub open spec fn digest_input(rec: SaveRecord) -> Seq<char> {
    rec.query@ + rec.schema@ + rec.version@
}

/// The content-derived code under which a record is stored.
pub open spec fn save_code(rec: SaveRecord) -> Seq<char> {
    sha1_hex(digest_input(rec))
}

/// What the text digest of an input is.
pub uninterp spec fn sha1_hex(input: Seq<char>) -> Seq<char>;

/// Relies on rust-crypto's `Sha1` through its `Digest` trait: `input_str`
/// feeds the text's bytes to the hash and `result_str` renders the 160-bit
/// digest as 40 hexadecimal characters, a function of the input text alone.
#[verifier::external_body]
fn sha1_hex_of(input: &str) -> (r: String)
    ensures
        r@ == sha1_hex(input@),
        r@.len() == 40,
{
    let mut hasher = crypto::sha1::Sha1::new();
    hasher.input_str(input);
    hasher.result_str()
}

/// The code for a (schema, query, version) triple: the digest of the three
/// texts, stable across processes and machines.
pub fn compute_code(schema: &String, query: &String, version: &String) -> (r: String)
    ensures
        r@ == sha1_hex(query@ + schema@ + version@),
{
    let mut input = query.clone();
    input.append(schema.as_str());
    input.append(version.as_str());
    sha1_hex_of(input.as_str())
}

/// The map encoded by an association list, later entries winning.
pub open spec fn assoc_map(s: Seq<(String, SaveRecord)>) -> Map<Seq<char>, SaveRecord>
    decreases s.len(),
{
    if s.len() == 0 {
        Map::empty()
    } else {
        assoc_map(s.drop_last()).insert(s.last().0@, s.last().1)
    }
}

/// Code uniqueness: no two entries share a code.
pub open spec fn unique_codes(s: Seq<(String, SaveRecord)>) -> bool {
    forall|i: int, j: int| 0 <= i < j < s.len() ==> s[i].0@ != s[j].0@
}

proof fn lemma_assoc_at(s: Seq<(String, SaveRecord)>, i: int)
    requires
        unique_codes(s),
        0 <= i < s.len(),
    ensures
        assoc_map(s).contains_key(s[i].0@),
        assoc_map(s)[s[i].0@] == s[i].1,
    decreases s.len(),
{
    if i < s.len() - 1 {
        lemma_assoc_at(s.drop_last(), i);
    }
}

proof fn lemma_assoc_absent(s: Seq<(String, SaveRecord)>, k: Seq<char>)
    requires
        forall|i: int| 0 <= i < s.len() ==> s[i].0@ != k,
    ensures
        !assoc_map(s).contains_key(k),
    decreases s.len(),
{
    if s.len() > 0 {
        lemma_assoc_absent(s.drop_last(), k);
    }
}

proof fn lemma_assoc_push(s: Seq<(String, SaveRecord)>, p: (String, SaveRecord))
    ensures
        assoc_map(s.push(p)) == assoc_map(s).insert(p.0@, p.1),
{
    assert(s.push(p).drop_last() =~= s);
}

proof fn lemma_assoc_update(s: Seq<(String, SaveRecord)>, i: int, p: (String, SaveRecord))
    requires
        unique_codes(s),
        0 <= i < s.len(),
        s[i].0@ == p.0@,
    ensures
        assoc_map(s.update(i, p)) == assoc_map(s).insert(p.0@, p.1),
    decreases s.len(),
{
    let su = s.update(i, p);
    if i == s.len() - 1 {
        assert(su.drop_last() =~= s.drop_last());
        assert(assoc_map(su) == assoc_map(s.drop_last()).insert(p.0@, p.1));
        assert(assoc_map(s).insert(p.0@, p.1) =~= assoc_map(s.drop_last()).insert(p.0@, p.1));
    } else {
        assert(su.drop_last() =~= s.drop_last().update(i, p));
        lemma_assoc_update(s.drop_last(), i, p);
        assert(su.last() == s.last());
        assert(s[i].0@ != s.last().0@);
        assert(assoc_map(su) == assoc_map(s.drop_last()).insert(p.0@, p.1).insert(
            s.last().0@,
            s.last().1,
        ));
        assert(assoc_map(s.drop_last()).insert(p.0@, p.1).insert(s.last().0@, s.last().1)
            =~= assoc_map(s.drop_last()).insert(s.last().0@, s.last().1).insert(p.0@, p.1));
    }
}

/// The store a save leaves behind: the record stands under its code,
/// overwriting any previous record with that code.
pub open spec fn saved_store(
    m: Map<Seq<char>, SaveRecord>,
    rec: SaveRecord,
) -> Map<Seq<char>, SaveRecord> {
    m.insert(save_code(rec), rec)
}

/// The content-addressed fiddle store: records keyed by their content-derived
/// code, upsert-by-code, viewed as a map from code to record.
#[derive(Debug)]
pub struct FiddleStore {
    pub records: Vec<(String, SaveRecord)>,
}

impl View for FiddleStore {
    type V = Map<Seq<char>, SaveRecord>;

    open spec fn view(&self) -> Map<Seq<char>, SaveRecord> {
        assoc_map(self.records@)
    }
}

impl FiddleStore {
    /// Well-formed: the entry list is a map, one entry per code.
    pub open spec fn wf(self) -> bool {
        unique_codes(self.records@)
    }

    /// An empty store.
    pub fn new() -> (r: FiddleStore)
        ensures
            r.wf(),
            r@ == Map::<Seq<char>, SaveRecord>::empty(),
    {
        FiddleStore { records: Vec::new() }
    }

    /// Upsert by code: computes the code of the (schema, query, version)
    /// texts and makes the store map that code to exactly the given record,
    /// overwriting fields (the owner included) if the code was present.
    pub fn save(
        &mut self,
        schema: String,
        query: String,
        version: String,
        owner: Option<String>,
    ) -> (r: String)
        requires
            old(self).wf(),
        ensures
            final(self).wf(),
            r@ == save_code(SaveRecord { schema, query, version, owner }),
            final(self)@ == saved_store(old(self)@, SaveRecord { schema, query, version, owner }),
    {
        let code = compute_code(&schema, &query, &version);
        let rec = SaveRecord { schema, query, version, owner };
        let ghost entries = self.records@;
        let mut i: usize = 0;
        while i < self.records.len()
            invariant
                self.records@ == entries,
                entries == old(self).records@,
                unique_codes(entries),
                i <= entries.len(),
                forall|j: int| 0 <= j < i ==> entries[j].0@ != code@,
                code@ == save_code(rec),
                rec == (SaveRecord { schema, query, version, owner }),
            decreases entries.len() - i,
        {
            if self.records[i].0 == code {
                let out = code.clone();
                proof {
                    lemma_assoc_update(entries, i as int, (code, rec));
                }
                self.records[i] = (code, rec);
                return out;
            }
            i = i + 1;
        }
        proof {
            lemma_assoc_push(entries, (code, rec));
        }
        let out = code.clone();
        self.records.push((code, rec));
        out
    }

    /// Looks a code up: the stored record when the code is present, else the
    /// fixed default fiddle.  Never an error: an unknown code and a fresh
    /// store are indistinguishable successes.
    pub fn load(&self, code: &String) -> (r: SaveRecord)
        requires
            self.wf(),
        ensures
            self@.contains_key(code@) ==> r == self@[code@],
            !self@.contains_key(code@) ==> {
                &&& r.schema@ == default_schema_text()
                &&& r.query@ == default_query_text()
                &&& r.version@ == default_version_text()
                &&& r.owner is None
            },
    {
        let mut i: usize = 0;
        while i < self.records.len()
            invariant
                i <= self.records@.len(),
                forall|j: int| 0 <= j < i ==> self.records@[j].0@ != code@,
                self.wf(),
            decreases self.records@.len() - i,
        {
            if self.records[i].0 == *code {
                proof {
                    lemma_assoc_at(self.records@, i as int);
                }
                return self.records[i].1.clone();
            }
            i = i + 1;
        }
        proof {
            lemma_assoc_absent(self.records@, code@);
        }
        default_record()
    }

    /// The codes of every record saved under `owner`, in store order;
    /// records with no owner are never listed.
    pub fn list_by_owner(&self, owner: &String) -> (r: Vec<String>)
        ensures
            r@.map_values(|s: String| s@) == owner_codes(self.records@, owner@),
    {
        let mut out: Vec<String> = Vec::new();
        let mut i: usize = 0;
        while i < self.records.len()
            invariant
                i <= self.records@.len(),
                out@.map_values(|s: String| s@) == owner_codes(
                    self.records@.take(i as int),
                    owner@,
                ),
            decreases self.records@.len() - i,
        {
            let ghost prefix = self.records@.take(i as int);
            match &self.records[i].1.owner {
                Some(o) => {
                    if *o == *owner {
                        out.push(self.records[i].0.clone());
                    }
                },
                None => {},
            }
            proof {
                assert(self.records@.take(i + 1 as int).drop_last() =~= prefix);
                assert(out@.map_values(|s: String| s@) =~= owner_codes(
                    self.records@.take(i + 1 as int),
                    owner@,
                ));
            }
            i = i + 1;
        }
        proof {
            assert(self.records@.take(self.records@.len() as int) =~= self.records@);
        }
        out
    }
}

/// The codes of the records owned by `owner`, in entry order.
pub open spec fn owner_codes(s: Seq<(String, SaveRecord)>, owner: Seq<char>) -> Seq<Seq<char>>
    decreases s.len(),
{
    if s.len() == 0 {
        Seq::empty()
    } else {
        let rest = owner_codes(s.drop_last(), owner);
        if s.last().1.owner matches Some(o) && o@ == owner {
            rest.push(s.last().0@)
        } else {
            rest
        }
    }
}

/// Saving the same (schema, query, version) texts always yields the same
/// code, whoever saves them and whatever the store holds.
pub proof fn lemma_save_code_deterministic(rec1: SaveRecord, rec2: SaveRecord)
    requires
        rec1.schema@ == rec2.schema@,
        rec1.query@ == rec2.query@,
        rec1.version@ == rec2.version@,
    ensures
        save_code(rec1) == save_code(rec2),
{
}

/// Saving is idempotent: saving a record a second time leaves the store
/// exactly as the first save left it.
pub proof fn lemma_save_idempotent(m: Map<Seq<char>, SaveRecord>, rec: SaveRecord)
    ensures
        saved_store(saved_store(m, rec), rec) == saved_store(m, rec),
{
    assert(saved_store(saved_store(m, rec), rec) =~= saved_store(m, rec));
}

/// What a load returns once the backing store has answered: the record that
/// was found under the code, or the fixed default fiddle when none was —
/// never an error, whatever came back.
pub fn loaded_or_default(found: Option<SaveRecord>) -> (r: SaveRecord)
    ensures
        (match found {
            Some(rec) => r == rec,
            None => {
                &&& r.schema@ == default_schema_text()
                &&& r.query@ == default_query_text()
                &&& r.version@ == default_version_text()
                &&& r.owner is None
            },
        }),
{
    match found {
        Some(rec) => rec,
        None => default_record(),
    }
}

/// The identity a request acts under: the auth cookie's value when one came
/// with the request, else the configured default identity.  A capability
/// stand-in, not a security boundary.
pub fn resolve_identity(cookie: Option<String>, default_identity: String) -> (r: String)
    ensures
        (match cookie {
            Some(c) => r == c,
            None => r == default_identity,
        }),
{
    match cookie {
        Some(c) => c,
        None => default_identity,
    }
}

/// The default fiddle's schema text.
pub open spec fn default_schema_text() -> Seq<char> {
    "{\n  \"foo\": [\n    {\n      \"a\": 1\n    },\n    {\n      \"a\": 2\n    }\n  ],\n  \"bar\": [\n    {\n      \"b\": 1\n    },\n    {\n      \"b\": 2\n    }\n  ]\n}"@
}

/// The default fiddle's query text.
pub open spec fn default_query_text() -> Seq<char> {
    "{\n  \"collection\": \"foo\",\n  \"query\": {\n    \"pipeline\": [\n      {\n        \"$lookup\": {\n          \"from\": \"bar\",\n          \"as\": \"bar\",\n          \"pipeline\": []\n        }\n      },\n      {\n        \"$addFields\": {\n          \"c\": \"abc\"\n        }\n      }\n    ]\n  }\n}"@
}

/// The default fiddle's version tag.
pub open spec fn default_version_text() -> Seq<char> {
    "4.4"@
}

/// The fixed, illustrative fiddle that `load` falls back to.
pub fn default_record() -> (r: SaveRecord)
    ensures
        r.schema@ == default_schema_text(),
        r.query@ == default_query_text(),
        r.version@ == default_version_text(),
        r.owner is None,
{
    SaveRecord {
        schema: String::from_str(
            "{\n  \"foo\": [\n    {\n      \"a\": 1\n    },\n    {\n      \"a\": 2\n    }\n  ],\n  \"bar\": [\n    {\n      \"b\": 1\n    },\n    {\n      \"b\": 2\n    }\n  ]\n}",
        ),
        query: String::from_str(
            "{\n  \"collection\": \"foo\",\n  \"query\": {\n    \"pipeline\": [\n      {\n        \"$lookup\": {\n          \"from\": \"bar\",\n          \"as\": \"bar\",\n          \"pipeline\": []\n        }\n      },\n      {\n        \"$addFields\": {\n          \"c\": \"abc\"\n        }\n      }\n    ]\n  }\n}",
        ),
        version: String::from_str("4.4"),
        owner: None,
    }
}

} // verus!
