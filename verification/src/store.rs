//! The credential store document: a mapping from provider name to credential
//! record. Writing one provider's record merges into the document and never
//! disturbs sibling providers. Reading and writing the backing file is the
//! caller's business; the document itself and its merge discipline live here.

use vstd::prelude::*;
use vstd::string::StringExecFns;

verus! {

/// One provider's credential record.
///
/// `access` and `expires` are meant to be present or absent together
/// (see [`AuthInfo::consistent`]); `key` and `token` are reserved for
/// alternate auth kinds and only round-trip.
#[derive(Debug)]
pub struct AuthInfo {
    pub auth_type: String,
    pub refresh: Option<String>,
    pub access: Option<String>,
    pub expires: Option<i64>,
    pub key: Option<String>,
    pub token: Option<String>,
}

/// The mathematical value of a credential record.
pub ghost struct AuthInfoView {
    pub auth_type: Seq<char>,
    pub refresh: Option<Seq<char>>,
    pub access: Option<Seq<char>>,
    pub expires: Option<i64>,
    pub key: Option<Seq<char>>,
    pub token: Option<Seq<char>>,
}

pub open spec fn view_opt_string(o: Option<String>) -> Option<Seq<char>> {
    match o {
        Some(s) => Some(s@),
        None => None,
    }
}

impl View for AuthInfo {
    type V = AuthInfoView;

    open spec fn view(&self) -> AuthInfoView {
        AuthInfoView {
            auth_type: self.auth_type@,
            refresh: view_opt_string(self.refresh),
            access: view_opt_string(self.access),
            expires: self.expires,
            key: view_opt_string(self.key),
            token: view_opt_string(self.token),
        }
    }
}

impl AuthInfoView {
    /// A record is consistent when the access token and its expiry are
    /// present or absent together.
    pub open spec fn consistent(self) -> bool {
        self.access is Some <==> self.expires is Some
    }
}

fn clone_opt_string(o: &Option<String>) -> (r: Option<String>)
    ensures
        view_opt_string(r) == view_opt_string(*o),
{
    match o {
        Some(s) => Some(s.clone()),
        None => None,
    }
}

impl Clone for AuthInfo {
    fn clone(&self) -> (r: Self)
        ensures
            r@ == self@,
    {
        AuthInfo {
            auth_type: self.auth_type.clone(),
            refresh: clone_opt_string(&self.refresh),
            access: clone_opt_string(&self.access),
            expires: self.expires,
            key: clone_opt_string(&self.key),
            token: clone_opt_string(&self.token),
        }
    }
}

/// Whether two string slices hold the same characters.
pub fn str_eq(a: &str, b: &str) -> (r: bool)
    ensures
        r == (a@ == b@),
{
    let oa: String = a.to_owned();
    let ob: String = b.to_owned();
    oa == ob
}

struct StoreEntry {
    provider: String,
    record: AuthInfo,
}

/// The credential store document: provider name -> credential record.
pub struct CredStore {
    entries: Vec<StoreEntry>,
}

spec fn map_of(entries: Seq<StoreEntry>) -> Map<Seq<char>, AuthInfoView>
    decreases entries.len(),
{
    if entries.len() == 0 {
        Map::empty()
    } else {
        map_of(entries.drop_last()).insert(
            entries.last().provider@,
            entries.last().record@,
        )
    }
}

proof fn lemma_map_of_absent(entries: Seq<StoreEntry>, k: Seq<char>)
    requires
        forall|i: int| 0 <= i < entries.len() ==> entries[i].provider@ != k,
    ensures
        !map_of(entries).contains_key(k),
    decreases entries.len(),
{
    if entries.len() > 0 {
        lemma_map_of_absent(entries.drop_last(), k);
    }
}

proof fn lemma_map_of_present(entries: Seq<StoreEntry>, i: int)
    requires
        0 <= i < entries.len(),
        forall|j: int| i < j < entries.len() ==> entries[j].provider@ != entries[i].provider@,
    ensures
        map_of(entries).contains_key(entries[i].provider@),
        map_of(entries)[entries[i].provider@] == entries[i].record@,
    decreases entries.len(),
{
    if i < entries.len() - 1 {
        assert(forall|j: int|
            i < j < entries.drop_last().len() ==> entries.drop_last()[j].provider@
                != entries.drop_last()[i].provider@);
        lemma_map_of_present(entries.drop_last(), i);
    }
}

proof fn lemma_map_of_update(entries: Seq<StoreEntry>, i: int, ent: StoreEntry)
    requires
        0 <= i < entries.len(),
        ent.provider@ == entries[i].provider@,
        forall|j: int| i < j < entries.len() ==> entries[j].provider@ != entries[i].provider@,
    ensures
        map_of(entries.update(i, ent)) == map_of(entries).insert(ent.provider@, ent.record@),
    decreases entries.len(),
{
    let updated = entries.update(i, ent);
    if i == entries.len() - 1 {
        assert(updated.drop_last() =~= entries.drop_last());
        assert(map_of(updated) =~= map_of(entries).insert(ent.provider@, ent.record@));
    } else {
        assert(updated.drop_last() =~= entries.drop_last().update(i, ent));
        lemma_map_of_update(entries.drop_last(), i, ent);
        assert(map_of(updated) =~= map_of(entries).insert(ent.provider@, ent.record@));
    }
}

impl View for CredStore {
    type V = Map<Seq<char>, AuthInfoView>;

    closed spec fn view(&self) -> Map<Seq<char>, AuthInfoView> {
        map_of(self.entries@)
    }
}

impl CredStore {
    /// No two entries carry the same provider name.
    pub closed spec fn wf(&self) -> bool {
        forall|i: int, j: int|
            0 <= i < j < self.entries@.len() ==> self.entries@[i].provider@
                != self.entries@[j].provider@
    }

    /// The empty document: the state of a missing or unreadable file.
    pub fn new() -> (r: CredStore)
        ensures
            r.wf(),
            r@ == Map::<Seq<char>, AuthInfoView>::empty(),
    {
        CredStore { entries: Vec::new() }
    }

    /// Look one provider's record up.
    pub fn get(&self, provider: &str) -> (r: Option<AuthInfo>)
        requires
            self.wf(),
        ensures
            r matches Some(a) ==> self@.contains_key(provider@) && a@ == self@[provider@],
            r is None ==> !self@.contains_key(provider@),
    {
        let n = self.entries.len();
        let mut i: usize = 0;
        while i < n
            invariant
                n == self.entries@.len(),
                i <= n,
                self.wf(),
                forall|j: int| 0 <= j < i ==> self.entries@[j].provider@ != provider@,
            decreases n - i,
        {
            if str_eq(self.entries[i].provider.as_str(), provider) {
                proof {
                    lemma_map_of_present(self.entries@, i as int);
                }
                return Some(self.entries[i].record.clone());
            }
            i += 1;
        }
        proof {
            lemma_map_of_absent(self.entries@, provider@);
        }
        None
    }

    /// Set one provider's record, leaving every other provider's record as
    /// it was: the read-merge-write discipline on the document.
    pub fn set(&mut self, provider: &str, record: AuthInfo)
        requires
            old(self).wf(),
        ensures
            final(self).wf(),
            final(self)@ == old(self)@.insert(provider@, record@),
    {
        let n = self.entries.len();
        let mut i: usize = 0;
        while i < n
            invariant
                n == self.entries@.len(),
                i <= n,
                self.wf(),
                self.entries@ == old(self).entries@,
                forall|j: int| 0 <= j < i ==> self.entries@[j].provider@ != provider@,
            decreases n - i,
        {
            if str_eq(self.entries[i].provider.as_str(), provider) {
                let ent = StoreEntry { provider: provider.to_owned(), record };
                proof {
                    lemma_map_of_update(self.entries@, i as int, ent);
                }
                self.entries.set(i, ent);
                assert(final(self).wf()) by {
                    assert(forall|p: int, q: int|
                        0 <= p < q < self.entries@.len() ==> self.entries@[p].provider@
                            != self.entries@[q].provider@);
                }
                return;
            }
            i += 1;
        }
        let ent = StoreEntry { provider: provider.to_owned(), record };
        let ghost before = self.entries@;
        self.entries.push(ent);
        proof {
            assert(self.entries@.drop_last() =~= before);
            assert(map_of(self.entries@) == map_of(before).insert(provider@, record@));
        }
    }
}

/// Idempotent store merge: saving a record for one provider and then for a
/// second, distinct provider yields a document holding both records,
/// unchanged, and the two saves commute.
pub proof fn lemma_store_merge(
    m: Map<Seq<char>, AuthInfoView>,
    a: Seq<char>,
    ra: AuthInfoView,
    b: Seq<char>,
    rb: AuthInfoView,
)
    requires
        a != b,
    ensures
        m.insert(a, ra).insert(b, rb).contains_key(a),
        m.insert(a, ra).insert(b, rb).contains_key(b),
        m.insert(a, ra).insert(b, rb)[a] == ra,
        m.insert(a, ra).insert(b, rb)[b] == rb,
        m.insert(a, ra).insert(b, rb) == m.insert(b, rb).insert(a, ra),
{
    assert(m.insert(a, ra).insert(b, rb) =~= m.insert(b, rb).insert(a, ra));
}

/// The path of the credential file under the configuration directory: the
/// explicit configuration home when one is given, else the home-directory
/// fallback, and a hard-coded last resort; always the same fixed
/// subdirectory and filename below it.
pub fn config_file_path(config_home: Option<&str>, home: Option<&str>) -> (r: String)
    ensures
        config_home matches Some(c) ==> r@ == c@ + "/008/auth.json"@,
        config_home is None ==> (home matches Some(h) ==> r@ == h@ + "/.config/008/auth.json"@),
        config_home is None && home is None ==> r@ == "/home/user/.config/008/auth.json"@,
{
    match config_home {
        Some(c) => c.to_owned().concat("/008/auth.json"),
        None => match home {
            Some(h) => h.to_owned().concat("/.config/008/auth.json"),
            None => "/home/user/.config/008/auth.json".to_owned(),
        },
    }
}

} // verus!
