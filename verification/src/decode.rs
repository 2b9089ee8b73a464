//! Reading the canonical JSON text back into an envelope.
//!
//! The readers accept exactly the canonical shape the encoder produces:
//! fields in declaration order, no whitespace, `null` for absent options.

use vstd::prelude::*;
use crate::model::Pokemon;
use crate::model::PokemonResult;
use crate::model::PokemonResultV;
use crate::model::PokemonSprites;
use crate::model::PokemonSpritesV;
use crate::model::PokemonType;
use crate::model::PokemonTypeV;
use crate::model::PokemonV;
use crate::model::TypeInfo;
use crate::model::TypeInfoV;
use crate::numerals::at;
use crate::numerals::parse_u32;
use crate::numerals::sp_u32;
use crate::text::parse_string;
use crate::text::sp_string;
use crate::text::str_to_chars;
use vstd::string::StrSliceExecFns;

verus! {

/// Reads the exact literal `l` at `i`.
pub open spec fn sp_lit(s: Seq<char>, i: int, l: Seq<char>) -> Option<int> {
    if at(s, i, l) {
        Some(i + l.len())
    } else {
        None
    }
}

/// Reads `true` or `false` at `i`.
pub open spec fn sp_bool(s: Seq<char>, i: int) -> Option<(bool, int)> {
    if sp_lit(s, i, "true"@) is Some {
        Some((true, sp_lit(s, i, "true"@).unwrap()))
    } else if sp_lit(s, i, "false"@) is Some {
        Some((false, sp_lit(s, i, "false"@).unwrap()))
    } else {
        None
    }
}

/// Reads `null` or a numeral at `i`.
pub open spec fn sp_opt_u32(s: Seq<char>, i: int) -> Option<(Option<u32>, int)> {
    if 0 <= i < s.len() && s[i] == 'n' {
        match sp_lit(s, i, "null"@) {
            Some(j) => Some((None, j)),
            None => None,
        }
    } else {
        match sp_u32(s, i) {
            Some((v, j)) => Some((Some(v), j)),
            None => None,
        }
    }
}

/// Reads `null` or a quoted literal at `i`.
pub open spec fn sp_opt_text(s: Seq<char>, i: int) -> Option<(Option<Seq<char>>, int)> {
    if 0 <= i < s.len() && s[i] == 'n' {
        match sp_lit(s, i, "null"@) {
            Some(j) => Some((None, j)),
            None => None,
        }
    } else {
        match sp_string(s, i) {
            Some((t, j)) => Some((Some(t), j)),
            None => None,
        }
    }
}

/// Reads a type reference object at `i`.
pub open spec fn sp_type_info(s: Seq<char>, i: int) -> Option<(TypeInfoV, int)> {
    match sp_lit(s, i, "{\"name\":"@) {
        Some(j1) => match sp_string(s, j1) {
            Some((name, j2)) => match sp_lit(s, j2, ",\"url\":"@) {
                Some(j3) => match sp_string(s, j3) {
                    Some((url, j4)) => match sp_lit(s, j4, "}"@) {
                        Some(j5) => Some((TypeInfoV { name, url }, j5)),
                        None => None,
                    },
                    None => None,
                },
                None => None,
            },
            None => None,
        },
        None => None,
    }
}

/// Reads one type list entry at `i`.
pub open spec fn sp_type_entry(s: Seq<char>, i: int) -> Option<(PokemonTypeV, int)> {
    match sp_lit(s, i, "{\"slot\":"@) {
        Some(j1) => match sp_u32(s, j1) {
            Some((slot, j2)) => match sp_lit(s, j2, ",\"type\":"@) {
                Some(j3) => match sp_type_info(s, j3) {
                    Some((type_info, j4)) => match sp_lit(s, j4, "}"@) {
                        Some(j5) => Some((PokemonTypeV { slot, type_info }, j5)),
                        None => None,
                    },
                    None => None,
                },
                None => None,
            },
            None => None,
        },
        None => None,
    }
}

/// Reads one or more comma-separated entries and the closing bracket.
pub open spec fn sp_type_list(s: Seq<char>, i: int) -> Option<(Seq<PokemonTypeV>, int)>
    decreases s.len() - i,
{
    match sp_type_entry(s, i) {
        Some((e, j)) => if j <= i || j > s.len() {
            None
        } else if j < s.len() && s[j] == ',' {
            match sp_type_list(s, j + 1) {
                Some((rest, k)) => Some((seq![e] + rest, k)),
                None => None,
            }
        } else if j < s.len() && s[j] == ']' {
            Some((seq![e], j + 1))
        } else {
            None
        },
        None => None,
    }
}

/// Reads the whole type array at `i`.
pub open spec fn sp_types(s: Seq<char>, i: int) -> Option<(Seq<PokemonTypeV>, int)> {
    match sp_lit(s, i, "["@) {
        Some(j) => if j < s.len() && s[j] == ']' {
            Some((Seq::empty(), j + 1))
        } else {
            sp_type_list(s, j)
        },
        None => None,
    }
}

/// Reads the sprites object at `i`.
pub open spec fn sp_sprites(s: Seq<char>, i: int) -> Option<(PokemonSpritesV, int)> {
    match sp_lit(s, i, "{\"front_default\":"@) {
        Some(j1) => match sp_opt_text(s, j1) {
            Some((front_default, j2)) => match sp_lit(s, j2, ",\"back_default\":"@) {
                Some(j3) => match sp_opt_text(s, j3) {
                    Some((back_default, j4)) => match sp_lit(s, j4, "}"@) {
                        Some(j5) => Some((PokemonSpritesV { front_default, back_default }, j5)),
                        None => None,
                    },
                    None => None,
                },
                None => None,
            },
            None => None,
        },
        None => None,
    }
}

/// Reads a record object at `i`.
pub open spec fn sp_pokemon(s: Seq<char>, i: int) -> Option<(PokemonV, int)> {
    match sp_lit(s, i, "{\"id\":"@) {
        Some(j1) => match sp_u32(s, j1) {
            Some((id, j2)) => match sp_lit(s, j2, ",\"name\":"@) {
                Some(j3) => match sp_string(s, j3) {
                    Some((name, j4)) => match sp_lit(s, j4, ",\"height\":"@) {
                        Some(j5) => match sp_u32(s, j5) {
                            Some((height, j6)) => match sp_lit(s, j6, ",\"weight\":"@) {
                                Some(j7) => match sp_u32(s, j7) {
                                    Some((weight, j8)) => match sp_lit(
                                        s,
                                        j8,
                                        ",\"base_experience\":"@,
                                    ) {
                                        Some(j9) => match sp_opt_u32(s, j9) {
                                            Some((base_experience, j10)) => match sp_lit(
                                                s,
                                                j10,
                                                ",\"sprites\":"@,
                                            ) {
                                                Some(j11) => match sp_sprites(s, j11) {
                                                    Some((sprites, j12)) => match sp_lit(
                                                        s,
                                                        j12,
                                                        ",\"types\":"@,
                                                    ) {
                                                        Some(j13) => match sp_types(s, j13) {
                                                            Some((types, j14)) => match sp_lit(
                                                                s,
                                                                j14,
                                                                "}"@,
                                                            ) {
                                                                Some(j15) => Some(
                                                                    (
                                                                        PokemonV {
                                                                            id,
                                                                            name,
                                                                            height,
                                                                            weight,
                                                                            base_experience,
                                                                            sprites,
                                                                            types,
                                                                        },
                                                                        j15,
                                                                    ),
                                                                ),
                                                                None => None,
                                                            },
                                                            None => None,
                                                        },
                                                        None => None,
                                                    },
                                                    None => None,
                                                },
                                                None => None,
                                            },
                                            None => None,
                                        },
                                        None => None,
                                    },
                                    None => None,
                                },
                                None => None,
                            },
                            None => None,
                        },
                        None => None,
                    },
                    None => None,
                },
                None => None,
            },
            None => None,
        },
        None => None,
    }
}

/// Reads `null` or a record object at `i`.
pub open spec fn sp_opt_pokemon(s: Seq<char>, i: int) -> Option<(Option<PokemonV>, int)> {
    if 0 <= i < s.len() && s[i] == 'n' {
        match sp_lit(s, i, "null"@) {
            Some(j) => Some((None, j)),
            None => None,
        }
    } else {
        match sp_pokemon(s, i) {
            Some((p, j)) => Some((Some(p), j)),
            None => None,
        }
    }
}

/// Reads a whole envelope object at `i`.
pub open spec fn sp_result_at(s: Seq<char>, i: int) -> Option<(PokemonResultV, int)> {
    match sp_lit(s, i, "{\"success\":"@) {
        Some(j1) => match sp_bool(s, j1) {
            Some((success, j2)) => match sp_lit(s, j2, ",\"pokemon\":"@) {
                Some(j3) => match sp_opt_pokemon(s, j3) {
                    Some((pokemon, j4)) => match sp_lit(s, j4, ",\"error\":"@) {
                        Some(j5) => match sp_opt_text(s, j5) {
                            Some((error, j6)) => match sp_lit(s, j6, "}"@) {
                                Some(j7) => Some((PokemonResultV { success, pokemon, error }, j7)),
                                None => None,
                            },
                            None => None,
                        },
                        None => None,
                    },
                    None => None,
                },
                None => None,
            },
            None => None,
        },
        None => None,
    }
}

/// Reads a whole text as one envelope: the object, with nothing after it.
pub open spec fn sp_result_full(s: Seq<char>) -> Option<PokemonResultV> {
    match sp_result_at(s, 0) {
        Some((r, j)) => if j == s.len() {
            Some(r)
        } else {
            None
        },
        None => None,
    }
}

/// Reads the exact literal `l` at `i`, as [`sp_lit`] describes it.
pub fn expect_lit(s: &Vec<char>, i: usize, l: &str) -> (r: Option<usize>)
    requires
        i <= s@.len(),
    ensures
        match r {
            Some(j) => sp_lit(s@, i as int, l@) == Some(j as int) && i <= j <= s@.len(),
            None => sp_lit(s@, i as int, l@) is None,
        },
{
    let n = l.unicode_len();
    if n > s.len() - i {
        return None;
    }
    let end = i + n;
    let mut k: usize = 0;
    while k < n
        invariant
            n == l@.len(),
            i + n <= s@.len(),
            end == i + n,
            k <= n,
            forall|m: int| 0 <= m < k ==> s@[i + m] == l@[m],
        decreases n - k,
    {
        if s[i + k] != l.get_char(k) {
            proof {
                assert(s@[i + k as int] != l@[k as int]);
                assert(!at(s@, i as int, l@));
            }
            return None;
        }
        k = k + 1;
    }
    proof {
        assert(at(s@, i as int, l@));
    }
    Some(i + n)
}

/// Reads `true` or `false` at `i`, as [`sp_bool`] describes it.
pub fn parse_bool(s: &Vec<char>, i: usize) -> (r: Option<(bool, usize)>)
    requires
        i <= s@.len(),
    ensures
        match r {
            Some((b, j)) => sp_bool(s@, i as int) == Some((b, j as int)) && i <= j <= s@.len(),
            None => sp_bool(s@, i as int) is None,
        },
{
    match expect_lit(s, i, "true") {
        Some(j) => Some((true, j)),
        None => match expect_lit(s, i, "false") {
            Some(j) => Some((false, j)),
            None => None,
        },
    }
}

/// Reads `null` or a numeral at `i`, as [`sp_opt_u32`] describes it.
pub fn parse_opt_u32(s: &Vec<char>, i: usize) -> (r: Option<(Option<u32>, usize)>)
    requires
        i <= s@.len(),
    ensures
        match r {
            Some((v, j)) => sp_opt_u32(s@, i as int) == Some((v, j as int)) && i <= j <= s@.len(),
            None => sp_opt_u32(s@, i as int) is None,
        },
{
    if i < s.len() && s[i] == 'n' {
        match expect_lit(s, i, "null") {
            Some(j) => Some((None, j)),
            None => None,
        }
    } else {
        match parse_u32(s, i) {
            Some((v, j)) => Some((Some(v), j)),
            None => None,
        }
    }
}

/// Reads `null` or a quoted literal at `i`, as [`sp_opt_text`] describes it.
pub fn parse_opt_text(s: &Vec<char>, i: usize) -> (r: Option<(Option<String>, usize)>)
    requires
        i <= s@.len(),
    ensures
        match r {
            Some((v, j)) => sp_opt_text(s@, i as int) == Some(
                (
                    match v {
                        Some(t) => Some(t@),
                        None => None,
                    },
                    j as int,
                ),
            ) && i <= j <= s@.len(),
            None => sp_opt_text(s@, i as int) is None,
        },
{
    if i < s.len() && s[i] == 'n' {
        match expect_lit(s, i, "null") {
            Some(j) => Some((None, j)),
            None => None,
        }
    } else {
        match parse_string(s, i) {
            Some((t, j)) => Some((Some(t), j)),
            None => None,
        }
    }
}

/// Reads a type reference object at `i`, as [`sp_type_info`] describes it.
pub fn parse_type_info(s: &Vec<char>, i: usize) -> (r: Option<(TypeInfo, usize)>)
    requires
        i <= s@.len(),
    ensures
        match r {
            Some((t, j)) => sp_type_info(s@, i as int) == Some((t@, j as int)) && i <= j
                <= s@.len(),
            None => sp_type_info(s@, i as int) is None,
        },
{
    let j1 = match expect_lit(s, i, "{\"name\":") {
        Some(j) => j,
        None => {
            return None;
        },
    };
    let (name, j2) = match parse_string(s, j1) {
        Some(p) => p,
        None => {
            return None;
        },
    };
    let j3 = match expect_lit(s, j2, ",\"url\":") {
        Some(j) => j,
        None => {
            return None;
        },
    };
    let (url, j4) = match parse_string(s, j3) {
        Some(p) => p,
        None => {
            return None;
        },
    };
    let j5 = match expect_lit(s, j4, "}") {
        Some(j) => j,
        None => {
            return None;
        },
    };
    Some((TypeInfo { name, url }, j5))
}

/// Reads one type list entry at `i`, as [`sp_type_entry`] describes it.
pub fn parse_type_entry(s: &Vec<char>, i: usize) -> (r: Option<(PokemonType, usize)>)
    requires
        i <= s@.len(),
    ensures
        match r {
            Some((t, j)) => sp_type_entry(s@, i as int) == Some((t@, j as int)) && i < j
                <= s@.len(),
            None => sp_type_entry(s@, i as int) is None,
        },
{
    let j1 = match expect_lit(s, i, "{\"slot\":") {
        Some(j) => j,
        None => {
            return None;
        },
    };
    let (slot, j2) = match parse_u32(s, j1) {
        Some(p) => p,
        None => {
            return None;
        },
    };
    let j3 = match expect_lit(s, j2, ",\"type\":") {
        Some(j) => j,
        None => {
            return None;
        },
    };
    let (type_info, j4) = match parse_type_info(s, j3) {
        Some(p) => p,
        None => {
            return None;
        },
    };
    let j5 = match expect_lit(s, j4, "}") {
        Some(j) => j,
        None => {
            return None;
        },
    };
    Some((PokemonType { slot, type_info }, j5))
}

/// Reads entries and the closing bracket at `i`, as [`sp_type_list`]
/// describes it.
pub fn parse_type_list(s: &Vec<char>, i: usize) -> (r: Option<(Vec<PokemonType>, usize)>)
    requires
        i <= s@.len(),
    ensures
        match r {
            Some((v, j)) => sp_type_list(s@, i as int) == Some(
                (v@.map_values(|t: PokemonType| t@), j as int),
            ) && i < j <= s@.len(),
            None => sp_type_list(s@, i as int) is None,
        },
    decreases s@.len() - i,
{
    let (e, j) = match parse_type_entry(s, i) {
        Some(p) => p,
        None => {
            return None;
        },
    };
    if j < s.len() && s[j] == ',' {
        match parse_type_list(s, j + 1) {
            Some((mut rest, k)) => {
                rest.insert(0, e);
                proof {
                    assert(rest@.map_values(|t: PokemonType| t@) =~= seq![e@] + rest@.drop_first()
                        .map_values(|t: PokemonType| t@));
                }
                Some((rest, k))
            },
            None => None,
        }
    } else if j < s.len() && s[j] == ']' {
        let mut v: Vec<PokemonType> = Vec::new();
        v.push(e);
        proof {
            assert(v@.map_values(|t: PokemonType| t@) =~= seq![e@]);
        }
        Some((v, j + 1))
    } else {
        None
    }
}

/// Reads the whole type array at `i`, as [`sp_types`] describes it.
pub fn parse_types(s: &Vec<char>, i: usize) -> (r: Option<(Vec<PokemonType>, usize)>)
    requires
        i <= s@.len(),
    ensures
        match r {
            Some((v, j)) => sp_types(s@, i as int) == Some(
                (v@.map_values(|t: PokemonType| t@), j as int),
            ) && i < j <= s@.len(),
            None => sp_types(s@, i as int) is None,
        },
{
    let j = match expect_lit(s, i, "[") {
        Some(j) => j,
        None => {
            return None;
        },
    };
    if j < s.len() && s[j] == ']' {
        let v: Vec<PokemonType> = Vec::new();
        proof {
            assert(v@.map_values(|t: PokemonType| t@) =~= Seq::<PokemonTypeV>::empty());
        }
        Some((v, j + 1))
    } else {
        parse_type_list(s, j)
    }
}

/// Reads the sprites object at `i`, as [`sp_sprites`] describes it.
pub fn parse_sprites(s: &Vec<char>, i: usize) -> (r: Option<(PokemonSprites, usize)>)
    requires
        i <= s@.len(),
    ensures
        match r {
            Some((sp, j)) => sp_sprites(s@, i as int) == Some((sp@, j as int)) && i <= j
                <= s@.len(),
            None => sp_sprites(s@, i as int) is None,
        },
{
    let j1 = match expect_lit(s, i, "{\"front_default\":") {
        Some(j) => j,
        None => {
            return None;
        },
    };
    let (front_default, j2) = match parse_opt_text(s, j1) {
        Some(p) => p,
        None => {
            return None;
        },
    };
    let j3 = match expect_lit(s, j2, ",\"back_default\":") {
        Some(j) => j,
        None => {
            return None;
        },
    };
    let (back_default, j4) = match parse_opt_text(s, j3) {
        Some(p) => p,
        None => {
            return None;
        },
    };
    let j5 = match expect_lit(s, j4, "}") {
        Some(j) => j,
        None => {
            return None;
        },
    };
    Some((PokemonSprites { front_default, back_default }, j5))
}

/// Reads a record object at `i`, as [`sp_pokemon`] describes it.
pub fn parse_pokemon(s: &Vec<char>, i: usize) -> (r: Option<(Pokemon, usize)>)
    requires
        i <= s@.len(),
    ensures
        match r {
            Some((p, j)) => sp_pokemon(s@, i as int) == Some((p@, j as int)) && i <= j <= s@.len(),
            None => sp_pokemon(s@, i as int) is None,
        },
{
    let j1 = match expect_lit(s, i, "{\"id\":") {
        Some(j) => j,
        None => {
            return None;
        },
    };
    let (id, j2) = match parse_u32(s, j1) {
        Some(p) => p,
        None => {
            return None;
        },
    };
    let j3 = match expect_lit(s, j2, ",\"name\":") {
        Some(j) => j,
        None => {
            return None;
        },
    };
    let (name, j4) = match parse_string(s, j3) {
        Some(p) => p,
        None => {
            return None;
        },
    };
    let j5 = match expect_lit(s, j4, ",\"height\":") {
        Some(j) => j,
        None => {
            return None;
        },
    };
    let (height, j6) = match parse_u32(s, j5) {
        Some(p) => p,
        None => {
            return None;
        },
    };
    let j7 = match expect_lit(s, j6, ",\"weight\":") {
        Some(j) => j,
        None => {
            return None;
        },
    };
    let (weight, j8) = match parse_u32(s, j7) {
        Some(p) => p,
        None => {
            return None;
        },
    };
    let j9 = match expect_lit(s, j8, ",\"base_experience\":") {
        Some(j) => j,
        None => {
            return None;
        },
    };
    let (base_experience, j10) = match parse_opt_u32(s, j9) {
        Some(p) => p,
        None => {
            return None;
        },
    };
    let j11 = match expect_lit(s, j10, ",\"sprites\":") {
        Some(j) => j,
        None => {
            return None;
        },
    };
    let (sprites, j12) = match parse_sprites(s, j11) {
        Some(p) => p,
        None => {
            return None;
        },
    };
    let j13 = match expect_lit(s, j12, ",\"types\":") {
        Some(j) => j,
        None => {
            return None;
        },
    };
    let (types, j14) = match parse_types(s, j13) {
        Some(p) => p,
        None => {
            return None;
        },
    };
    let j15 = match expect_lit(s, j14, "}") {
        Some(j) => j,
        None => {
            return None;
        },
    };
    Some((Pokemon { id, name, height, weight, base_experience, sprites, types }, j15))
}

/// Reads `null` or a record at `i`, as [`sp_opt_pokemon`] describes it.
pub fn parse_opt_pokemon(s: &Vec<char>, i: usize) -> (r: Option<(Option<Pokemon>, usize)>)
    requires
        i <= s@.len(),
    ensures
        match r {
            Some((v, j)) => sp_opt_pokemon(s@, i as int) == Some(
                (
                    match v {
                        Some(p) => Some(p@),
                        None => None,
                    },
                    j as int,
                ),
            ) && i <= j <= s@.len(),
            None => sp_opt_pokemon(s@, i as int) is None,
        },
{
    if i < s.len() && s[i] == 'n' {
        match expect_lit(s, i, "null") {
            Some(j) => Some((None, j)),
            None => None,
        }
    } else {
        match parse_pokemon(s, i) {
            Some((p, j)) => Some((Some(p), j)),
            None => None,
        }
    }
}

/// Reads a whole envelope object at `i`, as [`sp_result_at`] describes it.
pub fn parse_result_at(s: &Vec<char>, i: usize) -> (r: Option<(PokemonResult, usize)>)
    requires
        i <= s@.len(),
    ensures
        match r {
            Some((pr, j)) => sp_result_at(s@, i as int) == Some((pr@, j as int)) && i <= j
                <= s@.len(),
            None => sp_result_at(s@, i as int) is None,
        },
{
    let j1 = match expect_lit(s, i, "{\"success\":") {
        Some(j) => j,
        None => {
            return None;
        },
    };
    let (success, j2) = match parse_bool(s, j1) {
        Some(p) => p,
        None => {
            return None;
        },
    };
    let j3 = match expect_lit(s, j2, ",\"pokemon\":") {
        Some(j) => j,
        None => {
            return None;
        },
    };
    let (pokemon, j4) = match parse_opt_pokemon(s, j3) {
        Some(p) => p,
        None => {
            return None;
        },
    };
    let j5 = match expect_lit(s, j4, ",\"error\":") {
        Some(j) => j,
        None => {
            return None;
        },
    };
    let (error, j6) = match parse_opt_text(s, j5) {
        Some(p) => p,
        None => {
            return None;
        },
    };
    let j7 = match expect_lit(s, j6, "}") {
        Some(j) => j,
        None => {
            return None;
        },
    };
    Some((PokemonResult { success, pokemon, error }, j7))
}

/// Reads a whole text back as one envelope, as [`sp_result_full`]
/// describes it: the canonical object shape, with nothing after it.
pub fn decode_result_json(s: &str) -> (r: Option<PokemonResult>)
    ensures
        match r {
            Some(pr) => sp_result_full(s@) == Some(pr@),
            None => sp_result_full(s@) is None,
        },
{
    let v = str_to_chars(s);
    match parse_result_at(&v, 0) {
        Some((pr, j)) => {
            if j == v.len() {
                Some(pr)
            } else {
                None
            }
        },
        None => None,
    }
}

} // verus!
