//! Canonical JSON rendering of the envelope and the record.
//!
//! The shape is fixed: object fields in declaration order, no whitespace,
//! absent optional fields rendered as `null`.

use vstd::prelude::*;
use crate::model::Pokemon;
use crate::model::PokemonResult;
use crate::model::PokemonResultV;
use crate::model::PokemonSprites;
use crate::model::PokemonSpritesV;
use crate::model::PokemonType;
use crate::model::PokemonTypeV;
use crate::model::PokemonV;
use crate::model::TypeInfo;
use crate::model::TypeInfoV;
use crate::numerals::dec_of;
use crate::numerals::u32_digits;
use crate::text::chars_to_string;
use crate::text::quote_str;
use crate::text::quoted;
use crate::text::str_to_chars;
use crate::text::nul_free;
use crate::text::lemma_nul_free_concat;
use crate::text::lemma_nul_free_quoted;

verus! {

/// JSON image of a boolean.
pub open spec fn enc_bool(b: bool) -> Seq<char> {
    if b {
        "true"@
    } else {
        "false"@
    }
}

/// JSON image of an optional number: the numeral, or `null`.
pub open spec fn enc_opt_u32(o: Option<u32>) -> Seq<char> {
    match o {
        None => "null"@,
        Some(n) => dec_of(n as nat),
    }
}

/// JSON image of an optional text: the quoted literal, or `null`.
pub open spec fn enc_opt_text(o: Option<Seq<char>>) -> Seq<char> {
    match o {
        None => "null"@,
        Some(t) => quoted(t),
    }
}

/// JSON image of a type reference.
pub open spec fn enc_type_info(t: TypeInfoV) -> Seq<char> {
    "{\"name\":"@ + quoted(t.name) + ",\"url\":"@ + quoted(t.url) + "}"@
}

/// JSON image of one type list entry.
pub open spec fn enc_type_entry(e: PokemonTypeV) -> Seq<char> {
    "{\"slot\":"@ + dec_of(e.slot as nat) + ",\"type\":"@ + enc_type_info(e.type_info) + "}"@
}

/// JSON images of the type list entries, separated by commas.
pub open spec fn enc_type_list(ts: Seq<PokemonTypeV>) -> Seq<char>
    decreases ts.len(),
{
    if ts.len() == 0 {
        Seq::empty()
    } else if ts.len() == 1 {
        enc_type_entry(ts[0])
    } else {
        enc_type_entry(ts[0]) + ","@ + enc_type_list(ts.drop_first())
    }
}

/// JSON image of the type list, as an array.
pub open spec fn enc_types(ts: Seq<PokemonTypeV>) -> Seq<char> {
    "["@ + enc_type_list(ts) + "]"@
}

/// JSON image of the sprite URLs.
pub open spec fn enc_sprites(sp: PokemonSpritesV) -> Seq<char> {
    "{\"front_default\":"@ + enc_opt_text(sp.front_default) + ",\"back_default\":"@
        + enc_opt_text(sp.back_default) + "}"@
}

/// JSON image of a record.
pub open spec fn enc_pokemon(p: PokemonV) -> Seq<char> {
    "{\"id\":"@ + dec_of(p.id as nat) + ",\"name\":"@ + quoted(p.name) + ",\"height\":"@ + dec_of(
        p.height as nat,
    ) + ",\"weight\":"@ + dec_of(p.weight as nat) + ",\"base_experience\":"@ + enc_opt_u32(
        p.base_experience,
    ) + ",\"sprites\":"@ + enc_sprites(p.sprites) + ",\"types\":"@ + enc_types(p.types) + "}"@
}

/// JSON image of an optional record: the object, or `null`.
pub open spec fn enc_opt_pokemon(o: Option<PokemonV>) -> Seq<char> {
    match o {
        None => "null"@,
        Some(p) => enc_pokemon(p),
    }
}

/// JSON image of the whole envelope.
pub open spec fn enc_result(r: PokemonResultV) -> Seq<char> {
    "{\"success\":"@ + enc_bool(r.success) + ",\"pokemon\":"@ + enc_opt_pokemon(r.pokemon)
        + ",\"error\":"@ + enc_opt_text(r.error) + "}"@
}

/// Every field-name literal of the canonical shape is nul-free.
proof fn lemma_lits_nul_free()
    ensures
        nul_free("{\"success\":"@),
        nul_free(",\"pokemon\":"@),
        nul_free(",\"error\":"@),
        nul_free("{\"id\":"@),
        nul_free(",\"name\":"@),
        nul_free(",\"height\":"@),
        nul_free(",\"weight\":"@),
        nul_free(",\"base_experience\":"@),
        nul_free(",\"sprites\":"@),
        nul_free(",\"types\":"@),
        nul_free("{\"front_default\":"@),
        nul_free(",\"back_default\":"@),
        nul_free("{\"slot\":"@),
        nul_free(",\"type\":"@),
        nul_free("{\"name\":"@),
        nul_free(",\"url\":"@),
        nul_free("}"@),
        nul_free("["@),
        nul_free("]"@),
        nul_free(","@),
        nul_free("null"@),
        nul_free("true"@),
        nul_free("false"@),
{
    reveal_strlit("{\"success\":");
    reveal_strlit(",\"pokemon\":");
    reveal_strlit(",\"error\":");
    reveal_strlit("{\"id\":");
    reveal_strlit(",\"name\":");
    reveal_strlit(",\"height\":");
    reveal_strlit(",\"weight\":");
    reveal_strlit(",\"base_experience\":");
    reveal_strlit(",\"sprites\":");
    reveal_strlit(",\"types\":");
    reveal_strlit("{\"front_default\":");
    reveal_strlit(",\"back_default\":");
    reveal_strlit("{\"slot\":");
    reveal_strlit(",\"type\":");
    reveal_strlit("{\"name\":");
    reveal_strlit(",\"url\":");
    reveal_strlit("}");
    reveal_strlit("[");
    reveal_strlit("]");
    reveal_strlit(",");
    reveal_strlit("null");
    reveal_strlit("true");
    reveal_strlit("false");
}

/// A decimal numeral is nul-free: it holds digit characters only.
proof fn lemma_nul_free_dec(n: nat)
    ensures
        nul_free(dec_of(n)),
{
    crate::numerals::lemma_dec_of_digits(n);
    assert forall|k: int| 0 <= k < dec_of(n).len() implies dec_of(n)[k] != '\u{0}' by {
        assert(crate::numerals::is_digit(dec_of(n)[k]));
        assert('\u{0}' as u32 == 0);
    }
}

/// The image of an optional number is nul-free.
proof fn lemma_nul_free_opt_u32(o: Option<u32>)
    ensures
        nul_free(enc_opt_u32(o)),
{
    lemma_lits_nul_free();
    match o {
        None => {},
        Some(n) => lemma_nul_free_dec(n as nat),
    }
}

/// The image of an optional text is nul-free.
proof fn lemma_nul_free_opt_text(o: Option<Seq<char>>)
    ensures
        nul_free(enc_opt_text(o)),
{
    lemma_lits_nul_free();
    match o {
        None => {},
        Some(t) => lemma_nul_free_quoted(t),
    }
}

/// The image of a type reference is nul-free.
proof fn lemma_nul_free_type_info(t: TypeInfoV)
    ensures
        nul_free(enc_type_info(t)),
{
    lemma_lits_nul_free();
    lemma_nul_free_quoted(t.name);
    lemma_nul_free_quoted(t.url);
    lemma_nul_free_concat("{\"name\":"@, quoted(t.name));
    lemma_nul_free_concat("{\"name\":"@ + quoted(t.name), ",\"url\":"@);
    lemma_nul_free_concat("{\"name\":"@ + quoted(t.name) + ",\"url\":"@, quoted(t.url));
    lemma_nul_free_concat("{\"name\":"@ + quoted(t.name) + ",\"url\":"@ + quoted(t.url), "}"@);
}

/// The image of one type entry is nul-free.
proof fn lemma_nul_free_type_entry(e: PokemonTypeV)
    ensures
        nul_free(enc_type_entry(e)),
{
    lemma_lits_nul_free();
    lemma_nul_free_dec(e.slot as nat);
    lemma_nul_free_type_info(e.type_info);
    lemma_nul_free_concat("{\"slot\":"@, dec_of(e.slot as nat));
    lemma_nul_free_concat("{\"slot\":"@ + dec_of(e.slot as nat), ",\"type\":"@);
    lemma_nul_free_concat(
        "{\"slot\":"@ + dec_of(e.slot as nat) + ",\"type\":"@,
        enc_type_info(e.type_info),
    );
    lemma_nul_free_concat(
        "{\"slot\":"@ + dec_of(e.slot as nat) + ",\"type\":"@ + enc_type_info(e.type_info),
        "}"@,
    );
}

/// The image of the type array is nul-free.
proof fn lemma_nul_free_types(ts: Seq<PokemonTypeV>)
    ensures
        nul_free(enc_type_list(ts)),
        nul_free(enc_types(ts)),
    decreases ts.len(),
{
    lemma_lits_nul_free();
    if ts.len() == 0 {
    } else if ts.len() == 1 {
        lemma_nul_free_type_entry(ts[0]);
    } else {
        lemma_nul_free_type_entry(ts[0]);
        lemma_nul_free_types(ts.drop_first());
        lemma_nul_free_concat(enc_type_entry(ts[0]), ","@);
        lemma_nul_free_concat(enc_type_entry(ts[0]) + ","@, enc_type_list(ts.drop_first()));
    }
    lemma_nul_free_concat("["@, enc_type_list(ts));
    lemma_nul_free_concat("["@ + enc_type_list(ts), "]"@);
}

/// The image of the sprites object is nul-free.
proof fn lemma_nul_free_sprites(sp: PokemonSpritesV)
    ensures
        nul_free(enc_sprites(sp)),
{
    lemma_lits_nul_free();
    lemma_nul_free_opt_text(sp.front_default);
    lemma_nul_free_opt_text(sp.back_default);
    lemma_nul_free_concat("{\"front_default\":"@, enc_opt_text(sp.front_default));
    lemma_nul_free_concat(
        "{\"front_default\":"@ + enc_opt_text(sp.front_default),
        ",\"back_default\":"@,
    );
    lemma_nul_free_concat(
        "{\"front_default\":"@ + enc_opt_text(sp.front_default) + ",\"back_default\":"@,
        enc_opt_text(sp.back_default),
    );
    lemma_nul_free_concat(
        "{\"front_default\":"@ + enc_opt_text(sp.front_default) + ",\"back_default\":"@
            + enc_opt_text(sp.back_default),
        "}"@,
    );
}

/// The image of a record is nul-free.
#[verifier::rlimit(60)]
proof fn lemma_nul_free_pokemon(p: PokemonV)
    ensures
        nul_free(enc_pokemon(p)),
{
    lemma_lits_nul_free();
    lemma_nul_free_dec(p.id as nat);
    lemma_nul_free_quoted(p.name);
    lemma_nul_free_dec(p.height as nat);
    lemma_nul_free_dec(p.weight as nat);
    lemma_nul_free_opt_u32(p.base_experience);
    lemma_nul_free_sprites(p.sprites);
    lemma_nul_free_types(p.types);
    let s1 = "{\"id\":"@ + dec_of(p.id as nat);
    lemma_nul_free_concat("{\"id\":"@, dec_of(p.id as nat));
    let s2 = s1 + ",\"name\":"@;
    lemma_nul_free_concat(s1, ",\"name\":"@);
    let s3 = s2 + quoted(p.name);
    lemma_nul_free_concat(s2, quoted(p.name));
    let s4 = s3 + ",\"height\":"@;
    lemma_nul_free_concat(s3, ",\"height\":"@);
    let s5 = s4 + dec_of(p.height as nat);
    lemma_nul_free_concat(s4, dec_of(p.height as nat));
    let s6 = s5 + ",\"weight\":"@;
    lemma_nul_free_concat(s5, ",\"weight\":"@);
    let s7 = s6 + dec_of(p.weight as nat);
    lemma_nul_free_concat(s6, dec_of(p.weight as nat));
    let s8 = s7 + ",\"base_experience\":"@;
    lemma_nul_free_concat(s7, ",\"base_experience\":"@);
    let s9 = s8 + enc_opt_u32(p.base_experience);
    lemma_nul_free_concat(s8, enc_opt_u32(p.base_experience));
    let s10 = s9 + ",\"sprites\":"@;
    lemma_nul_free_concat(s9, ",\"sprites\":"@);
    let s11 = s10 + enc_sprites(p.sprites);
    lemma_nul_free_concat(s10, enc_sprites(p.sprites));
    let s12 = s11 + ",\"types\":"@;
    lemma_nul_free_concat(s11, ",\"types\":"@);
    let s13 = s12 + enc_types(p.types);
    lemma_nul_free_concat(s12, enc_types(p.types));
    lemma_nul_free_concat(s13, "}"@);
}

/// The image of the whole envelope is nul-free: the rendered text can
/// always back a nul-terminated buffer.
pub proof fn lemma_nul_free_result(r: PokemonResultV)
    ensures
        nul_free(enc_result(r)),
{
    lemma_lits_nul_free();
    match r.pokemon {
        None => {},
        Some(p) => lemma_nul_free_pokemon(p),
    }
    lemma_nul_free_opt_text(r.error);
    let s1 = "{\"success\":"@ + enc_bool(r.success);
    lemma_nul_free_concat("{\"success\":"@, enc_bool(r.success));
    let s2 = s1 + ",\"pokemon\":"@;
    lemma_nul_free_concat(s1, ",\"pokemon\":"@);
    let s3 = s2 + enc_opt_pokemon(r.pokemon);
    lemma_nul_free_concat(s2, enc_opt_pokemon(r.pokemon));
    let s4 = s3 + ",\"error\":"@;
    lemma_nul_free_concat(s3, ",\"error\":"@);
    let s5 = s4 + enc_opt_text(r.error);
    lemma_nul_free_concat(s4, enc_opt_text(r.error));
    lemma_nul_free_concat(s5, "}"@);
}

/// Appends the characters of a literal.
fn push_lit(out: &mut Vec<char>, l: &str)
    ensures
        final(out)@ == old(out)@ + l@,
{
    let mut v = str_to_chars(l);
    out.append(&mut v);
}

/// Appends the quoted image of a string.
fn push_quoted(out: &mut Vec<char>, s: &str)
    ensures
        final(out)@ == old(out)@ + quoted(s@),
{
    let mut v = quote_str(s);
    out.append(&mut v);
}

/// Appends the numeral of a number.
fn push_u32(out: &mut Vec<char>, n: u32)
    ensures
        final(out)@ == old(out)@ + dec_of(n as nat),
{
    let mut v = u32_digits(n);
    out.append(&mut v);
}

/// Appends the image of an optional number.
fn push_opt_u32(out: &mut Vec<char>, o: &Option<u32>)
    ensures
        final(out)@ == old(out)@ + enc_opt_u32(*o),
{
    match o {
        None => push_lit(out, "null"),
        Some(n) => push_u32(out, *n),
    }
}

/// Appends the image of an optional text.
fn push_opt_text(out: &mut Vec<char>, o: &Option<String>)
    ensures
        final(out)@ == old(out)@ + enc_opt_text(
            match *o {
                Some(ref s) => Some(s@),
                None => None,
            },
        ),
{
    match o {
        None => push_lit(out, "null"),
        Some(s) => push_quoted(out, s.as_str()),
    }
}

/// Appends the image of a type reference.
fn push_type_info(out: &mut Vec<char>, t: &TypeInfo)
    ensures
        final(out)@ == old(out)@ + enc_type_info(t@),
{
    push_lit(out, "{\"name\":");
    push_quoted(out, t.name.as_str());
    push_lit(out, ",\"url\":");
    push_quoted(out, t.url.as_str());
    push_lit(out, "}");
    proof {
        assert(out@ =~= old(out)@ + enc_type_info(t@));
    }
}

/// Appends the image of one type list entry.
fn push_type_entry(out: &mut Vec<char>, e: &PokemonType)
    ensures
        final(out)@ == old(out)@ + enc_type_entry(e@),
{
    push_lit(out, "{\"slot\":");
    push_u32(out, e.slot);
    push_lit(out, ",\"type\":");
    push_type_info(out, &e.type_info);
    push_lit(out, "}");
    proof {
        assert(out@ =~= old(out)@ + enc_type_entry(e@));
    }
}

/// Appending an entry to a list appends its image, with a comma where the
/// list was not empty.
proof fn lemma_enc_type_list_snoc(ts: Seq<PokemonTypeV>, e: PokemonTypeV)
    ensures
        ts.len() == 0 ==> enc_type_list(ts.push(e)) == enc_type_entry(e),
        ts.len() > 0 ==> enc_type_list(ts.push(e)) == enc_type_list(ts) + ","@ + enc_type_entry(e),
    decreases ts.len(),
{
    reveal_with_fuel(enc_type_list, 3);
    if ts.len() == 0 {
        assert(ts.push(e)[0] == e);
    } else {
        assert(ts.push(e)[0] == ts[0]);
        assert(ts.push(e).drop_first() =~= ts.drop_first().push(e));
        lemma_enc_type_list_snoc(ts.drop_first(), e);
        if ts.len() == 1 {
            assert(enc_type_list(ts.push(e)) =~= enc_type_list(ts) + ","@ + enc_type_entry(e));
        } else {
            assert(enc_type_list(ts.push(e)) =~= enc_type_list(ts) + ","@ + enc_type_entry(e));
        }
    }
}

/// Appends the image of the whole type array.
fn push_types(out: &mut Vec<char>, ts: &Vec<PokemonType>)
    ensures
        final(out)@ == old(out)@ + enc_types(ts@.map_values(|t: PokemonType| t@)),
{
    let ghost tsv = ts@.map_values(|t: PokemonType| t@);
    push_lit(out, "[");
    let ghost base = out@;
    let mut k: usize = 0;
    while k < ts.len()
        invariant
            k <= ts@.len(),
            tsv == ts@.map_values(|t: PokemonType| t@),
            tsv.len() == ts@.len(),
            base == old(out)@ + "["@,
            out@ == base + enc_type_list(tsv.take(k as int)),
        decreases ts@.len() - k,
    {
        proof {
            assert(tsv.take((k + 1) as int) =~= tsv.take(k as int).push(tsv[k as int]));
            lemma_enc_type_list_snoc(tsv.take(k as int), tsv[k as int]);
            assert(tsv[k as int] == ts@[k as int]@);
        }
        if k > 0 {
            push_lit(out, ",");
        }
        push_type_entry(out, &ts[k]);
        proof {
            assert(out@ =~= base + enc_type_list(tsv.take((k + 1) as int)));
        }
        k = k + 1;
    }
    push_lit(out, "]");
    proof {
        assert(tsv.take(tsv.len() as int) =~= tsv);
        assert(out@ =~= old(out)@ + enc_types(tsv));
    }
}

/// Appends the image of the sprite URLs.
fn push_sprites(out: &mut Vec<char>, sp: &PokemonSprites)
    ensures
        final(out)@ == old(out)@ + enc_sprites(sp@),
{
    push_lit(out, "{\"front_default\":");
    push_opt_text(out, &sp.front_default);
    push_lit(out, ",\"back_default\":");
    push_opt_text(out, &sp.back_default);
    push_lit(out, "}");
    proof {
        assert(out@ =~= old(out)@ + enc_sprites(sp@));
    }
}

/// Appends the image of a record.
fn push_pokemon(out: &mut Vec<char>, p: &Pokemon)
    ensures
        final(out)@ == old(out)@ + enc_pokemon(p@),
{
    push_lit(out, "{\"id\":");
    push_u32(out, p.id);
    push_lit(out, ",\"name\":");
    push_quoted(out, p.name.as_str());
    push_lit(out, ",\"height\":");
    push_u32(out, p.height);
    push_lit(out, ",\"weight\":");
    push_u32(out, p.weight);
    push_lit(out, ",\"base_experience\":");
    push_opt_u32(out, &p.base_experience);
    push_lit(out, ",\"sprites\":");
    push_sprites(out, &p.sprites);
    push_lit(out, ",\"types\":");
    push_types(out, &p.types);
    push_lit(out, "}");
    proof {
        assert(out@ =~= old(out)@ + enc_pokemon(p@));
    }
}

/// Appends the image of the whole envelope.
#[verifier::rlimit(60)]
fn push_result(out: &mut Vec<char>, r: &PokemonResult)
    ensures
        final(out)@ == old(out)@ + enc_result(r@),
{
    push_lit(out, "{\"success\":");
    if r.success {
        push_lit(out, "true");
    } else {
        push_lit(out, "false");
    }
    push_lit(out, ",\"pokemon\":");
    match &r.pokemon {
        None => push_lit(out, "null"),
        Some(p) => push_pokemon(out, p),
    }
    push_lit(out, ",\"error\":");
    push_opt_text(out, &r.error);
    push_lit(out, "}");
    proof {
        assert(out@ =~= old(out)@ + enc_result(r@));
    }
}

/// Renders the envelope as its canonical JSON text.  Total: rendering
/// cannot fail, for any envelope.
pub fn result_to_json(r: &PokemonResult) -> (s: String)
    ensures
        s@ == enc_result(r@),
{
    let mut out: Vec<char> = Vec::new();
    push_result(&mut out, r);
    proof {
        assert(Seq::<char>::empty() + enc_result(r@) =~= enc_result(r@));
    }
    chars_to_string(&out)
}

} // verus!
