//! The codec laws: reading the canonical JSON text back yields exactly the
//! envelope it was rendered from — the encoding is lossless for every
//! modeled field.

use vstd::prelude::*;
use crate::decode::sp_bool;
use crate::decode::sp_opt_pokemon;
use crate::decode::sp_opt_text;
use crate::decode::sp_opt_u32;
use crate::decode::sp_pokemon;
use crate::decode::sp_result_at;
use crate::decode::sp_result_full;
use crate::decode::sp_sprites;
use crate::decode::sp_type_entry;
use crate::decode::sp_type_info;
use crate::decode::sp_type_list;
use crate::decode::sp_types;
use crate::encode::enc_bool;
use crate::encode::enc_opt_pokemon;
use crate::encode::enc_opt_text;
use crate::encode::enc_opt_u32;
use crate::encode::enc_pokemon;
use crate::encode::enc_result;
use crate::encode::enc_sprites;
use crate::encode::enc_type_entry;
use crate::encode::enc_type_info;
use crate::encode::enc_type_list;
use crate::encode::enc_types;
use crate::boundary::invalid_id_message;
use crate::boundary::lemma_error_mentions_id;
use crate::model::err_envelope;
use crate::model::id_valid;
use crate::model::ok_envelope;
use crate::model::PokemonResultV;
use crate::model::PokemonSpritesV;
use crate::model::PokemonTypeV;
use crate::model::PokemonV;
use crate::model::TypeInfoV;
use crate::numerals::at;
use crate::numerals::dec_of;
use crate::numerals::is_digit;
use crate::numerals::lemma_at_split;
use crate::numerals::lemma_dec_of_digits;
use crate::numerals::lemma_u32_inversion;
use crate::text::lemma_string_inversion;
use crate::text::quoted;

verus! {

/// Reading a rendered boolean back yields that boolean.
proof fn lemma_bool_inv(s: Seq<char>, i: int, b: bool)
    requires
        at(s, i, enc_bool(b)),
    ensures
        sp_bool(s, i) == Some((b, i + enc_bool(b).len())),
{
    reveal_strlit("true");
    reveal_strlit("false");
    if b {
    } else {
        assert(s[i + 0] == "false"@[0]);
        assert(!at(s, i, "true"@)) by {
            if at(s, i, "true"@) {
                assert(s[i + 0] == "true"@[0]);
                assert(false);
            }
        }
    }
}

/// Reading a rendered optional number back yields that option, where no
/// digit follows the rendering.
proof fn lemma_opt_u32_inv(s: Seq<char>, i: int, o: Option<u32>)
    requires
        at(s, i, enc_opt_u32(o)),
        i + enc_opt_u32(o).len() == s.len() || !is_digit(s[i + enc_opt_u32(o).len()]),
    ensures
        sp_opt_u32(s, i) == Some((o, i + enc_opt_u32(o).len())),
{
    reveal_strlit("null");
    match o {
        None => {
            assert(s[i + 0] == "null"@[0]);
        },
        Some(n) => {
            lemma_dec_of_digits(n as nat);
            assert(s[i + 0] == dec_of(n as nat)[0]);
            assert(s[i] != 'n');
            lemma_u32_inversion(s, i, n);
        },
    }
}

/// Reading a rendered optional text back yields that option.
proof fn lemma_opt_text_inv(s: Seq<char>, i: int, o: Option<Seq<char>>)
    requires
        at(s, i, enc_opt_text(o)),
    ensures
        sp_opt_text(s, i) == Some((o, i + enc_opt_text(o).len())),
{
    reveal_strlit("null");
    match o {
        None => {
            assert(s[i + 0] == "null"@[0]);
        },
        Some(t) => {
            assert(quoted(t)[0] == '"');
            assert(s[i + 0] == quoted(t)[0]);
            lemma_string_inversion(s, i, t);
        },
    }
}

/// Reading a rendered type reference back yields that reference.
proof fn lemma_type_info_inv(s: Seq<char>, i: int, t: TypeInfoV)
    requires
        at(s, i, enc_type_info(t)),
    ensures
        sp_type_info(s, i) == Some((t, i + enc_type_info(t).len())),
{
    let a = "{\"name\":"@;
    let b = quoted(t.name);
    let c = ",\"url\":"@;
    let d = quoted(t.url);
    let e = "}"@;
    assert(enc_type_info(t) =~= a + (b + (c + (d + e))));
    lemma_at_split(s, i, a, b + (c + (d + e)));
    let i1 = i + a.len();
    lemma_at_split(s, i1, b, c + (d + e));
    let i2 = i1 + b.len();
    lemma_at_split(s, i2, c, d + e);
    let i3 = i2 + c.len();
    lemma_at_split(s, i3, d, e);
    let i4 = i3 + d.len();
    lemma_string_inversion(s, i1, t.name);
    lemma_string_inversion(s, i3, t.url);
    assert(sp_type_info(s, i) == Some((t, i4 + e.len())));
}

/// Reading a rendered type entry back yields that entry.
proof fn lemma_type_entry_inv(s: Seq<char>, i: int, t: PokemonTypeV)
    requires
        at(s, i, enc_type_entry(t)),
    ensures
        sp_type_entry(s, i) == Some((t, i + enc_type_entry(t).len())),
        enc_type_entry(t).len() > 0,
{
    let a = "{\"slot\":"@;
    let b = dec_of(t.slot as nat);
    let c = ",\"type\":"@;
    let d = enc_type_info(t.type_info);
    let e = "}"@;
    reveal_strlit("{\"slot\":");
    reveal_strlit(",\"type\":");
    reveal_strlit("}");
    assert(enc_type_entry(t) =~= a + (b + (c + (d + e))));
    lemma_at_split(s, i, a, b + (c + (d + e)));
    let i1 = i + a.len();
    lemma_at_split(s, i1, b, c + (d + e));
    let i2 = i1 + b.len();
    lemma_at_split(s, i2, c, d + e);
    let i3 = i2 + c.len();
    lemma_at_split(s, i3, d, e);
    let i4 = i3 + d.len();
    assert(s[i2 + 0] == c[0]);
    assert(!is_digit(s[i2]));
    lemma_u32_inversion(s, i1, t.slot);
    lemma_type_info_inv(s, i3, t.type_info);
    assert(sp_type_entry(s, i) == Some((t, i4 + e.len())));
}

/// Reading rendered entries followed by the closing bracket yields them.
proof fn lemma_type_list_inv(s: Seq<char>, i: int, ts: Seq<PokemonTypeV>)
    requires
        ts.len() > 0,
        at(s, i, enc_type_list(ts) + seq![']']),
    ensures
        sp_type_list(s, i) == Some((ts, i + enc_type_list(ts).len() + 1)),
    decreases ts.len(),
{
    reveal_strlit(",");
    if ts.len() == 1 {
        let e = enc_type_entry(ts[0]);
        assert(enc_type_list(ts) + seq![']'] =~= e + seq![']']);
        lemma_at_split(s, i, e, seq![']']);
        lemma_type_entry_inv(s, i, ts[0]);
        let j = i + e.len();
        assert(s[j + 0] == seq![']'][0]);
        assert(s[j] == ']');
        assert(s[j] != ',');
        assert(seq![ts[0]] =~= ts);
    } else {
        let e = enc_type_entry(ts[0]);
        let rest = enc_type_list(ts.drop_first());
        assert(enc_type_list(ts) =~= e + ","@ + rest);
        assert(enc_type_list(ts) + seq![']'] =~= e + (","@ + (rest + seq![']'])));
        lemma_at_split(s, i, e, ","@ + (rest + seq![']']));
        let j = i + e.len();
        lemma_at_split(s, j, ","@, rest + seq![']']);
        lemma_type_entry_inv(s, i, ts[0]);
        assert(s[j + 0] == ","@[0]);
        assert(s[j] == ',');
        lemma_type_list_inv(s, j + ","@.len(), ts.drop_first());
        assert(seq![ts[0]] + ts.drop_first() =~= ts);
    }
}

/// Reading a rendered type array back yields the same entries.
proof fn lemma_types_inv(s: Seq<char>, i: int, ts: Seq<PokemonTypeV>)
    requires
        at(s, i, enc_types(ts)),
    ensures
        sp_types(s, i) == Some((ts, i + enc_types(ts).len())),
{
    reveal_strlit("[");
    reveal_strlit("]");
    if ts.len() == 0 {
        assert(enc_types(ts) =~= "["@ + "]"@);
        lemma_at_split(s, i, "["@, "]"@);
        let j = i + 1;
        assert(s[j + 0] == "]"@[0]);
        assert(at(s, i, "["@));
        assert(ts =~= Seq::<PokemonTypeV>::empty());
    } else {
        assert(enc_types(ts) =~= "["@ + (enc_type_list(ts) + seq![']'])) by {
            assert("]"@ =~= seq![']']);
        }
        lemma_at_split(s, i, "["@, enc_type_list(ts) + seq![']']);
        let j = i + 1;
        lemma_type_list_inv(s, j, ts);
        // the array is not empty: its first character opens an object
        lemma_type_list_first_char(ts);
        assert(s[j + 0] == (enc_type_list(ts) + seq![']'])[0]);
        assert(s[j] == '{');
        assert(s[j] != ']');
    }
}

/// Reading a rendered sprites object back yields the same sprites.
proof fn lemma_sprites_inv(s: Seq<char>, i: int, sp: PokemonSpritesV)
    requires
        at(s, i, enc_sprites(sp)),
    ensures
        sp_sprites(s, i) == Some((sp, i + enc_sprites(sp).len())),
{
    let a = "{\"front_default\":"@;
    let b = enc_opt_text(sp.front_default);
    let c = ",\"back_default\":"@;
    let d = enc_opt_text(sp.back_default);
    let e = "}"@;
    assert(enc_sprites(sp) =~= a + (b + (c + (d + e))));
    lemma_at_split(s, i, a, b + (c + (d + e)));
    let i1 = i + a.len();
    lemma_at_split(s, i1, b, c + (d + e));
    let i2 = i1 + b.len();
    lemma_at_split(s, i2, c, d + e);
    let i3 = i2 + c.len();
    lemma_at_split(s, i3, d, e);
    let i4 = i3 + d.len();
    lemma_opt_text_inv(s, i1, sp.front_default);
    lemma_opt_text_inv(s, i3, sp.back_default);
    assert(sp_sprites(s, i) == Some((sp, i4 + e.len())));
}

/// Reading a rendered record back yields the same record.
#[verifier::rlimit(100)]
proof fn lemma_pokemon_inv(s: Seq<char>, i: int, p: PokemonV)
    requires
        at(s, i, enc_pokemon(p)),
    ensures
        sp_pokemon(s, i) == Some((p, i + enc_pokemon(p).len())),
{
    let p1 = "{\"id\":"@;
    let p2 = dec_of(p.id as nat);
    let p3 = ",\"name\":"@;
    let p4 = quoted(p.name);
    let p5 = ",\"height\":"@;
    let p6 = dec_of(p.height as nat);
    let p7 = ",\"weight\":"@;
    let p8 = dec_of(p.weight as nat);
    let p9 = ",\"base_experience\":"@;
    let p10 = enc_opt_u32(p.base_experience);
    let p11 = ",\"sprites\":"@;
    let p12 = enc_sprites(p.sprites);
    let p13 = ",\"types\":"@;
    let p14 = enc_types(p.types);
    let p15 = "}"@;
    reveal_strlit(",\"name\":");
    reveal_strlit(",\"height\":");
    reveal_strlit(",\"weight\":");
    reveal_strlit(",\"base_experience\":");
    reveal_strlit(",\"sprites\":");
    let c2 = p1 + p2;
    let c3 = c2 + p3;
    let c4 = c3 + p4;
    let c5 = c4 + p5;
    let c6 = c5 + p6;
    let c7 = c6 + p7;
    let c8 = c7 + p8;
    let c9 = c8 + p9;
    let c10 = c9 + p10;
    let c11 = c10 + p11;
    let c12 = c11 + p12;
    let c13 = c12 + p13;
    let c14 = c13 + p14;
    assert(enc_pokemon(p) == c14 + p15);
    lemma_at_split(s, i, c14, p15);
    lemma_at_split(s, i, c13, p14);
    lemma_at_split(s, i, c12, p13);
    lemma_at_split(s, i, c11, p12);
    lemma_at_split(s, i, c10, p11);
    lemma_at_split(s, i, c9, p10);
    lemma_at_split(s, i, c8, p9);
    lemma_at_split(s, i, c7, p8);
    lemma_at_split(s, i, c6, p7);
    lemma_at_split(s, i, c5, p6);
    lemma_at_split(s, i, c4, p5);
    lemma_at_split(s, i, c3, p4);
    lemma_at_split(s, i, c2, p3);
    lemma_at_split(s, i, p1, p2);
    let i1 = i + p1.len();
    let i2 = i1 + p2.len();
    let i3 = i2 + p3.len();
    let i4 = i3 + p4.len();
    let i5 = i4 + p5.len();
    let i6 = i5 + p6.len();
    let i7 = i6 + p7.len();
    let i8 = i7 + p8.len();
    let i9 = i8 + p9.len();
    let i10 = i9 + p10.len();
    let i11 = i10 + p11.len();
    let i12 = i11 + p12.len();
    let i13 = i12 + p13.len();
    let i14 = i13 + p14.len();
    assert(s[i2 + 0] == p3[0]);
    assert(!is_digit(s[i2]));
    lemma_u32_inversion(s, i1, p.id);
    lemma_string_inversion(s, i3, p.name);
    assert(s[i6 + 0] == p7[0]);
    assert(!is_digit(s[i6]));
    lemma_u32_inversion(s, i5, p.height);
    assert(s[i8 + 0] == p9[0]);
    assert(!is_digit(s[i8]));
    lemma_u32_inversion(s, i7, p.weight);
    assert(s[i10 + 0] == p11[0]);
    assert(!is_digit(s[i10]));
    lemma_opt_u32_inv(s, i9, p.base_experience);
    lemma_sprites_inv(s, i11, p.sprites);
    lemma_types_inv(s, i13, p.types);
    assert(sp_pokemon(s, i) == Some((p, i14 + p15.len())));
}

/// Reading a rendered optional record back yields that option.
proof fn lemma_opt_pokemon_inv(s: Seq<char>, i: int, o: Option<PokemonV>)
    requires
        at(s, i, enc_opt_pokemon(o)),
    ensures
        sp_opt_pokemon(s, i) == Some((o, i + enc_opt_pokemon(o).len())),
{
    reveal_strlit("null");
    match o {
        None => {
            assert(s[i + 0] == "null"@[0]);
        },
        Some(p) => {
            reveal_strlit("{\"id\":");
            assert(enc_pokemon(p)[0] == "{\"id\":"@[0]);
            assert(s[i + 0] == enc_pokemon(p)[0]);
            assert(s[i] != 'n');
            lemma_pokemon_inv(s, i, p);
        },
    }
}

/// Reading a rendered envelope back yields the same envelope.
#[verifier::rlimit(100)]
proof fn lemma_result_inv(s: Seq<char>, i: int, r: PokemonResultV)
    requires
        at(s, i, enc_result(r)),
    ensures
        sp_result_at(s, i) == Some((r, i + enc_result(r).len())),
{
    let a = "{\"success\":"@;
    let b = enc_bool(r.success);
    let c = ",\"pokemon\":"@;
    let d = enc_opt_pokemon(r.pokemon);
    let e = ",\"error\":"@;
    let f = enc_opt_text(r.error);
    let g = "}"@;
    let c2 = a + b;
    let c3 = c2 + c;
    let c4 = c3 + d;
    let c5 = c4 + e;
    let c6 = c5 + f;
    assert(enc_result(r) == c6 + g);
    lemma_at_split(s, i, c6, g);
    lemma_at_split(s, i, c5, f);
    lemma_at_split(s, i, c4, e);
    lemma_at_split(s, i, c3, d);
    lemma_at_split(s, i, c2, c);
    lemma_at_split(s, i, a, b);
    let i1 = i + a.len();
    let i2 = i1 + b.len();
    let i3 = i2 + c.len();
    let i4 = i3 + d.len();
    let i5 = i4 + e.len();
    let i6 = i5 + f.len();
    lemma_bool_inv(s, i1, r.success);
    lemma_opt_pokemon_inv(s, i3, r.pokemon);
    lemma_opt_text_inv(s, i5, r.error);
    assert(sp_result_at(s, i) == Some((r, i6 + g.len())));
}

/// Round trip: rendering an envelope as canonical JSON text and reading
/// that text back yields an envelope equal in every modeled field.  Holds
/// for every envelope, well-formed or not.
pub proof fn lemma_round_trip(r: PokemonResultV)
    ensures
        sp_result_full(enc_result(r)) == Some(r),
{
    let s = enc_result(r);
    assert(at(s, 0, s)) by {
        assert(forall|k: int| 0 <= k < s.len() ==> s[#[trigger] (0 + k)] == s[k]);
    }
    lemma_result_inv(s, 0, r);
}

/// The text acquired for a successful fetch decodes back to a success
/// envelope carrying exactly the fetched record: `success` is set, the
/// record is present with all its fields, and no error text is present.
pub proof fn lemma_success_text_decodes(p: PokemonV)
    ensures
        sp_result_full(enc_result(ok_envelope(p))) == Some(ok_envelope(p)),
        ok_envelope(p).success,
        ok_envelope(p).pokemon == Some(p),
        ok_envelope(p).error is None,
{
    lemma_round_trip(ok_envelope(p));
}

/// The text acquired for a failed or rejected fetch decodes back to a
/// failure envelope carrying exactly the error text: `success` is clear,
/// no record is present, and the error text is exactly `e`.
pub proof fn lemma_error_text_decodes(e: Seq<char>)
    ensures
        sp_result_full(enc_result(err_envelope(e))) == Some(err_envelope(e)),
        !err_envelope(e).success,
        err_envelope(e).pokemon is None,
        err_envelope(e).error == Some(e),
{
    lemma_round_trip(err_envelope(e));
}

/// An identifier outside the catalog range is rejected before any fetch:
/// the text acquired for it decodes to a failure envelope whose error
/// names the offending identifier — its numeral stands in the message —
/// and carries no record.
pub proof fn lemma_invalid_id_text_decodes(id: u32)
    requires
        !id_valid(id),
    ensures
        sp_result_full(enc_result(err_envelope(invalid_id_message(id)))) == Some(
            err_envelope(invalid_id_message(id)),
        ),
        !err_envelope(invalid_id_message(id)).success,
        err_envelope(invalid_id_message(id)).pokemon is None,
        err_envelope(invalid_id_message(id)).error == Some(invalid_id_message(id)),
        at(invalid_id_message(id), 20, dec_of(id as nat)),
{
    lemma_error_text_decodes(invalid_id_message(id));
    lemma_error_mentions_id(id);
}

/// The rendering of a non-empty type list opens with its first entry.
proof fn lemma_type_list_first_char(ts: Seq<PokemonTypeV>)
    requires
        ts.len() > 0,
    ensures
        enc_type_list(ts).len() > 0,
        enc_type_list(ts)[0] == '{',
{
    reveal_strlit("{\"slot\":");
    assert(enc_type_entry(ts[0])[0] == "{\"slot\":"@[0]);
    if ts.len() == 1 {
    } else {
        assert(enc_type_list(ts)[0] == (enc_type_entry(ts[0]) + ","@ + enc_type_list(
            ts.drop_first(),
        ))[0]);
    }
}

} // verus!
