//! The boundary to the backing store: the errors it can raise, and the
//! decoding of its JSON text into the editor's mapping. Reading and
//! writing the file itself is the caller's business; this module turns
//! text into pairs and says exactly when that succeeds.

use vstd::prelude::*;

use crate::app::{insert_pair, App};

verus! {

/// Why a load or a save of the backing store failed. The two transport
/// kinds are raised by the I/O shell around the library; decoding here
/// raises only `MalformedData`, and the encoder in this crate cannot fail.
#[derive(Clone, Copy, PartialEq, Eq, Structural, Debug)]
pub enum StoreError {
    /// The backing file could not be opened or created.
    StoreUnavailable,
    /// The content is not one JSON object with string values throughout.
    MalformedData,
    /// The mapping could not be encoded.
    SerializationError,
    /// A read or write failed midway.
    IoFailure,
}

/// The flat string-to-string mapping that a JSON text denotes, when it is
/// one object with string values throughout: exactly the texts that
/// `serde_json` accepts for such a mapping, a later duplicate key
/// overwriting an earlier one.
pub uninterp spec fn json_object_of(s: Seq<char>) -> Option<Map<Seq<char>, Seq<char>>>;

/// Relies on serde_json::Error being an ordinary opaque error value; the
/// decoder below only maps it to `MalformedData`.
#[verifier::external_type_specification]
#[verifier::external_body]
pub struct ExSerdeError(serde_json::Error);

/// Relies on serde_json::from_str: parses the text as a JSON object with
/// string keys and string values and rejects any other JSON shape. The
/// entries of the result come in no fixed order, but no key comes twice
/// and the mapping they denote depends on the text alone.
#[verifier::external_body]
fn parse_string_object(s: &str) -> (r: Result<Vec<(String, String)>, serde_json::Error>)
    ensures
        r is Ok <==> json_object_of(s@) is Some,
        (r matches Ok(v) ==> App::keys_unique(v@) && App::map_of(v@) == json_object_of(s@)->Some_0),
{
    match serde_json::from_str::<std::collections::HashMap<String, String>>(s) {
        Ok(m) => Ok(m.into_iter().collect()),
        Err(e) => Err(e),
    }
}

/// Decode a store's text: the pairs of the mapping it holds, in no fixed
/// order but with no key twice, or `MalformedData` when the text is not
/// one JSON object with string values.
pub fn parse_mapping(s: &str) -> (r: Result<Vec<(String, String)>, StoreError>)
    ensures
        r is Ok <==> json_object_of(s@) is Some,
        (r matches Ok(v) ==> App::keys_unique(v@) && App::map_of(v@) == json_object_of(s@)->Some_0),
        r is Err ==> r == Result::<Vec<(String, String)>, StoreError>::Err(
            StoreError::MalformedData,
        ),
{
    match parse_string_object(s) {
        Ok(v) => Ok(v),
        Err(_) => Err(StoreError::MalformedData),
    }
}

impl App {
    /// Replace the committed mapping with the pairs of `ps`, a later
    /// duplicate key overwriting an earlier one; buffers and mode stay as
    /// they were.
    pub fn load_pairs(&mut self, ps: &Vec<(String, String)>)
        ensures
            App::keys_unique(final(self).pairs@),
            final(self).pairs_map() == App::map_of(ps@),
            final(self).key_input@ == old(self).key_input@,
            final(self).value_input@ == old(self).value_input@,
            final(self).current_screen == old(self).current_screen,
            final(self).currently_editing == old(self).currently_editing,
    {
        self.pairs = Vec::new();
        let n = ps.len();
        let mut i: usize = 0;
        while i < n
            invariant
                n == ps@.len(),
                i <= n,
                App::keys_unique(self.pairs@),
                App::map_of(self.pairs@) == App::map_of(ps@.subrange(0, i as int)),
                self.key_input@ == old(self).key_input@,
                self.value_input@ == old(self).value_input@,
                self.current_screen == old(self).current_screen,
                self.currently_editing == old(self).currently_editing,
            decreases n - i,
        {
            let k = ps[i].0.clone();
            let v = ps[i].1.clone();
            insert_pair(&mut self.pairs, k, v);
            proof {
                let sub1 = ps@.subrange(0, i + 1 as int);
                assert(sub1.drop_last() =~= ps@.subrange(0, i as int));
                assert(sub1.last() == ps@[i as int]);
            }
            i = i + 1;
        }
        proof {
            assert(ps@.subrange(0, n as int) =~= ps@);
        }
    }

    /// Load a store's text into the editor: decode it and replace the
    /// mapping, or report `MalformedData` and change nothing. Buffers and
    /// mode stay as they were either way.
    pub fn load_from_str(&mut self, s: &str) -> (r: Result<(), StoreError>)
        ensures
            r is Ok <==> json_object_of(s@) is Some,
            r is Ok ==> App::keys_unique(final(self).pairs@) && final(self).pairs_map()
                == json_object_of(s@)->Some_0,
            r is Err ==> *final(self) == *old(self) && r == Result::<(), StoreError>::Err(
                StoreError::MalformedData,
            ),
            final(self).key_input@ == old(self).key_input@,
            final(self).value_input@ == old(self).value_input@,
            final(self).current_screen == old(self).current_screen,
            final(self).currently_editing == old(self).currently_editing,
    {
        match parse_mapping(s) {
            Ok(ps) => {
                self.load_pairs(&ps);
                Ok(())
            },
            Err(e) => Err(e),
        }
    }
}

} // verus!
