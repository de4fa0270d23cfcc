//! An in-memory storage plugin.
//!
//! [`RustStorageCache`] keeps a key-value mapping of documents and
//! implements both resolver traits on top of it. Its behaviour is stated
//! against the abstract map it represents (its view): storing inserts a
//! binding, fetching returns exactly the stored value or fails with an error
//! naming the missing key.

use crate::error::{VadeError, VadeResult};
use crate::traits::{DidResolver, VcResolver};
use vstd::prelude::*;
use vstd::string::StringExecFns;

verus! {

/// The mapping a sequence of key-value entries represents: of entries
/// sharing a key, the one stored last wins.
spec fn map_of(s: Seq<(String, String)>) -> Map<Seq<char>, Seq<char>>
    decreases s.len(),
{
    if s.len() == 0 {
        Map::empty()
    } else {
        map_of(s.drop_last()).insert(s.last().0@, s.last().1@)
    }
}

/// In-memory storage: a key-value mapping holding documents.
pub struct RustStorageCache {
    /// Entries in storage order; a later entry shadows an earlier one with
    /// the same key.
    storage: Vec<(String, String)>,
}

impl View for RustStorageCache {
    type V = Map<Seq<char>, Seq<char>>;

    closed spec fn view(&self) -> Map<Seq<char>, Seq<char>> {
        map_of(self.storage@)
    }
}

/// The latest entry holding a key determines that key's value in the
/// represented mapping.
proof fn lemma_map_of_found(s: Seq<(String, String)>, i: int)
    requires
        0 <= i < s.len(),
        forall|j: int| i < j < s.len() ==> s[j].0@ != s[i].0@,
    ensures
        map_of(s).contains_key(s[i].0@),
        map_of(s)[s[i].0@] == s[i].1@,
    decreases s.len(),
{
    if i < s.len() - 1 {
        lemma_map_of_found(s.drop_last(), i);
        assert(s.last().0@ != s[i].0@);
    }
}

/// A key held by no entry is absent from the represented mapping.
proof fn lemma_map_of_absent(s: Seq<(String, String)>, k: Seq<char>)
    requires
        forall|j: int| 0 <= j < s.len() ==> s[j].0@ != k,
    ensures
        !map_of(s).contains_key(k),
    decreases s.len(),
{
    if s.len() > 0 {
        lemma_map_of_absent(s.drop_last(), k);
    }
}

impl RustStorageCache {
    /// Creates a new `RustStorageCache` instance holding no entries.
    pub fn new() -> (cache: RustStorageCache)
        ensures
            cache@ == Map::<Seq<char>, Seq<char>>::empty(),
    {
        RustStorageCache { storage: Vec::new() }
    }

    /// Gets the value stored for the given key; fails, naming the key, if
    /// no entry exists for it.
    ///
    /// # Arguments
    ///
    /// * `key` - id of the value to fetch
    #[verifier::loop_isolation(false)]
    pub fn get(&self, key: &str) -> (r: VadeResult<String>)
        ensures
            match r {
                Ok(v) => self@.contains_key(key@) && v@ == self@[key@],
                Err(e) => !self@.contains_key(key@) && e.message@ == "no entry for '"@ + key@
                    + "'"@,
            },
    {
        let owned_key = key.to_owned();
        let mut i: usize = self.storage.len();
        while i > 0
            invariant
                i <= self.storage@.len(),
                forall|j: int| i <= j < self.storage@.len() ==> self.storage@[j].0@ != key@,
            decreases i,
        {
            i -= 1;
            if self.storage[i].0 == owned_key {
                proof {
                    lemma_map_of_found(self.storage@, i as int);
                }
                return Ok(self.storage[i].1.clone());
            }
        }
        proof {
            lemma_map_of_absent(self.storage@, key@);
        }
        let mut message = "no entry for '".to_owned();
        message.append(key);
        message.append("'");
        proof {
            assert(message@ =~= "no entry for '"@ + key@ + "'"@);
        }
        Err(VadeError { message })
    }

    /// Stores the given value under the given key, shadowing any value
    /// stored for it before; never fails.
    ///
    /// # Arguments
    ///
    /// * `key` - id of the value to set
    /// * `value` - value to set
    pub fn set(&mut self, key: &str, value: &str) -> (r: VadeResult<()>)
        ensures
            r is Ok,
            final(self)@ == old(self)@.insert(key@, value@),
    {
        let ghost before = self.storage@;
        let entry = (key.to_owned(), value.to_owned());
        self.storage.push(entry);
        proof {
            assert(self.storage@.drop_last() =~= before);
            assert(self.storage@.last() == entry);
        }
        Ok(())
    }
}

impl DidResolver for RustStorageCache {
    /// Checks the given DID document. The DID name `"test"` is accepted as
    /// valid and every other name is rejected; the same failure channel
    /// covers "not responsible for this DID" and "DID considered invalid".
    fn check_did(&self, did_name: &str, _value: &str) -> (r: VadeResult<()>)
        ensures
            r is Ok <==> did_name@ == "test"@,
            r is Err ==> r->Err_0.message@ == "not responsible for this did"@,
    {
        let accepted = "test".to_owned();
        if did_name.to_owned() == accepted {
            Ok(())
        } else {
            Err(VadeError::new("not responsible for this did"))
        }
    }

    /// Gets the document stored for the given DID name.
    fn get_did_document(&self, did_id: &str) -> (r: VadeResult<String>)
        ensures
            match r {
                Ok(v) => self@.contains_key(did_id@) && v@ == self@[did_id@],
                Err(_) => !self@.contains_key(did_id@),
            },
    {
        self.get(did_id)
    }

    /// Stores the document for the given DID name.
    fn set_did_document(&mut self, did_id: &str, value: &str) -> (r: VadeResult<()>)
        ensures
            r is Ok,
            final(self)@ == old(self)@.insert(did_id@, value@),
    {
        self.set(did_id, value)
    }
}

impl VcResolver for RustStorageCache {
    /// Checks the given VC document. The VC id `"test"` is accepted as
    /// valid and every other id is rejected; the same failure channel
    /// covers "not responsible for this VC" and "VC considered invalid".
    fn check_vc(&self, vc_id: &str, _value: &str) -> (r: VadeResult<()>)
        ensures
            r is Ok <==> vc_id@ == "test"@,
            r is Err ==> r->Err_0.message@ == "not responsible for this vc"@,
    {
        let accepted = "test".to_owned();
        if vc_id.to_owned() == accepted {
            Ok(())
        } else {
            Err(VadeError::new("not responsible for this vc"))
        }
    }

    /// Gets the document stored for the given VC name.
    fn get_vc_document(&self, vc_name: &str) -> (r: VadeResult<String>)
        ensures
            match r {
                Ok(v) => self@.contains_key(vc_name@) && v@ == self@[vc_name@],
                Err(_) => !self@.contains_key(vc_name@),
            },
    {
        self.get(vc_name)
    }

    /// Stores the document for the given VC name.
    fn set_vc_document(&mut self, vc_name: &str, value: &str) -> (r: VadeResult<()>)
        ensures
            r is Ok,
            final(self)@ == old(self)@.insert(vc_name@, value@),
    {
        self.set(vc_name, value)
    }
}

} // verus!
