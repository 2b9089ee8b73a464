//! The foreign-function boundary layer: owned text handles.
//!
//! A handle owns the rendered envelope text for exactly one acquire/release
//! cycle.  Acquiring hands the owned buffer to the caller; releasing takes
//! it back and drops it.  A null handle owns nothing, and releasing it is
//! always a harmless no-op.

use vstd::prelude::*;
use vstd::string::StrSliceExecFns;
use vstd::string::StringExecFns;
use crate::encode::enc_result;
use crate::encode::lemma_nul_free_result;
use crate::encode::result_to_json;
use crate::model::build_envelope;
use crate::model::check_id;
use crate::model::err_envelope;
use crate::model::id_valid;
use crate::model::ok_envelope;
use crate::model::Pokemon;
use crate::model::PokemonResult;
use crate::numerals::at;
use crate::numerals::dec_of;
use crate::numerals::u32_digits;
use crate::text::chars_to_string;
use crate::text::nul_free;

verus! {

/// An opaque reference to an owned text buffer, valid from acquire until
/// the matching release, or null.
pub struct TextHandle {
    text: Option<String>,
}

impl TextHandle {
    /// The text the handle owns: nothing for the null handle.
    pub closed spec fn text_spec(&self) -> Option<Seq<char>> {
        match self.text {
            Some(ref s) => Some(s@),
            None => None,
        }
    }

    /// Whatever text a handle owns is nul-free, so it can back a
    /// nul-terminated buffer.
    pub closed spec fn wf(&self) -> bool {
        match self.text {
            Some(ref s) => nul_free(s@),
            None => true,
        }
    }

    /// The null handle: owns nothing.
    pub fn null() -> (h: TextHandle)
        ensures
            h.text_spec() is None,
            h.wf(),
    {
        TextHandle { text: None }
    }

    /// Whether the handle is null.
    pub fn is_null(&self) -> (b: bool)
        ensures
            b == (self.text_spec() is None),
    {
        self.text.is_none()
    }

    /// Wraps `t` in a handle when it can back a nul-terminated buffer;
    /// where an embedded nul makes that impossible, the null handle is
    /// returned rather than an invalid one.
    pub fn from_text(t: String) -> (h: TextHandle)
        ensures
            h.wf(),
            nul_free(t@) ==> h.text_spec() == Some(t@),
            !nul_free(t@) ==> h.text_spec() is None,
    {
        let n = t.as_str().unicode_len();
        let mut k: usize = 0;
        while k < n
            invariant
                n == t@.len(),
                k <= n,
                forall|m: int| 0 <= m < k ==> t@[m] != '\u{0}',
            decreases n - k,
        {
            if t.as_str().get_char(k) == '\u{0}' {
                proof {
                    assert(!nul_free(t@));
                }
                return TextHandle { text: None };
            }
            k = k + 1;
        }
        TextHandle { text: Some(t) }
    }

    /// Surrenders the owned text: the caller becomes its owner.  A null
    /// handle yields nothing.
    pub fn take_text(self) -> (r: Option<String>)
        ensures
            match r {
                Some(t) => self.text_spec() == Some(t@) && (self.wf() ==> nul_free(t@)),
                None => self.text_spec() is None,
            },
    {
        self.text
    }
}

/// Reclaims whatever the handle owns and drops it.  Releasing the null
/// handle does nothing, and can be repeated any number of times; this
/// function is verified never to fault on any handle.  Each non-null
/// handle can be released only once: the handle is consumed here, so a
/// second release of the same handle cannot be written.
pub fn release_text(h: TextHandle) {
    let _ = h;
}

/// The error text for an identifier outside the catalog range.
pub open spec fn invalid_id_message(id: u32) -> Seq<char> {
    "Invalid Pokemon ID: "@ + dec_of(id as nat) + ". Must be between 1 and 1025."@
}

/// Builds the error text for an identifier outside the catalog range.
pub fn invalid_id_text(id: u32) -> (m: String)
    ensures
        m@ == invalid_id_message(id),
{
    let mut m = String::from_str("Invalid Pokemon ID: ");
    let digits = u32_digits(id);
    let digits_text = chars_to_string(&digits);
    m.append(digits_text.as_str());
    m.append(". Must be between 1 and 1025.");
    proof {
        assert(m@ =~= invalid_id_message(id));
    }
    m
}

/// Validates the identifier before any fetch is dispatched.  An identifier
/// outside the catalog range yields, without any fetch, a non-null handle
/// holding the rendered failure envelope whose error names the offending
/// identifier and the valid range; a valid identifier yields nothing, and
/// the caller goes on to fetch.
pub fn acquire_precheck(id: u32) -> (r: Option<TextHandle>)
    ensures
        r is None <==> id_valid(id),
        match r {
            Some(h) => h.wf() && h.text_spec() == Some(
                enc_result(err_envelope(invalid_id_message(id))),
            ),
            None => true,
        },
{
    if check_id(id) {
        None
    } else {
        let message = invalid_id_text(id);
        let env = build_envelope(Err::<Pokemon, String>(message));
        let json = result_to_json(&env);
        proof {
            lemma_nul_free_result(env@);
        }
        Some(TextHandle::from_text(json))
    }
}

/// Wraps a fetch outcome and acquires the handle for it: the envelope is
/// built, rendered as canonical JSON text, and handed over as a non-null
/// handle owning that text.  Total for every outcome: rendering cannot
/// fail and the rendered text is always nul-free.
pub fn acquire_from_outcome(outcome: Result<Pokemon, String>) -> (h: TextHandle)
    ensures
        h.wf(),
        h.text_spec() == Some(
            enc_result(
                match outcome {
                    Ok(p) => ok_envelope(p@),
                    Err(e) => err_envelope(e@),
                },
            ),
        ),
{
    let env = build_envelope(outcome);
    let json = result_to_json(&env);
    proof {
        lemma_nul_free_result(env@);
    }
    TextHandle::from_text(json)
}

/// The upstream URL a record is fetched from.
pub open spec fn resource_url(id: u32) -> Seq<char> {
    "https://pokeapi.co/api/v2/pokemon/"@ + dec_of(id as nat)
}

/// Builds the upstream URL for a record identifier.
pub fn resource_url_text(id: u32) -> (u: String)
    ensures
        u@ == resource_url(id),
{
    let mut u = String::from_str("https://pokeapi.co/api/v2/pokemon/");
    let digits = u32_digits(id);
    let digits_text = chars_to_string(&digits);
    u.append(digits_text.as_str());
    u
}

/// The error text of the invalid-identifier envelope names the offending
/// identifier: its numeral stands at position 20, after the words
/// `Invalid Pokemon ID: `.
pub proof fn lemma_error_mentions_id(id: u32)
    ensures
        at(invalid_id_message(id), 20, dec_of(id as nat)),
{
    reveal_strlit("Invalid Pokemon ID: ");
    let a = "Invalid Pokemon ID: "@;
    let b = dec_of(id as nat);
    let c = ". Must be between 1 and 1025."@;
    assert(a.len() == 20);
    assert forall|k: int| 0 <= k < b.len() implies invalid_id_message(id)[20 + k] == b[k] by {
        assert((a + b + c)[20 + k] == (a + b)[20 + k]);
        assert((a + b)[20 + k] == b[k]);
    }
}

} // verus!
