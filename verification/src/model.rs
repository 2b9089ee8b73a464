//! The domain records and the uniform result envelope.

use vstd::prelude::*;

verus! {

/// Nested reference to a type entry: a name and the catalog URL of the type.
#[derive(Debug, Clone, PartialEq)]
pub struct TypeInfo {
    pub name: String,
    pub url: String,
}

/// Mathematical image of [`TypeInfo`]: both texts as character sequences.
pub struct TypeInfoV {
    pub name: Seq<char>,
    pub url: Seq<char>,
}

impl View for TypeInfo {
    type V = TypeInfoV;

    open spec fn view(&self) -> TypeInfoV {
        TypeInfoV { name: self.name@, url: self.url@ }
    }
}

/// One entry of a record's ordered type list.
#[derive(Debug, Clone, PartialEq)]
pub struct PokemonType {
    pub slot: u32,
    pub type_info: TypeInfo,
}

/// Mathematical image of [`PokemonType`].
pub struct PokemonTypeV {
    pub slot: u32,
    pub type_info: TypeInfoV,
}

impl View for PokemonType {
    type V = PokemonTypeV;

    open spec fn view(&self) -> PokemonTypeV {
        PokemonTypeV { slot: self.slot, type_info: self.type_info@ }
    }
}

/// Optional sprite URLs of a record.
#[derive(Debug, Clone, PartialEq)]
pub struct PokemonSprites {
    pub front_default: Option<String>,
    pub back_default: Option<String>,
}

/// Mathematical image of [`PokemonSprites`].
pub struct PokemonSpritesV {
    pub front_default: Option<Seq<char>>,
    pub back_default: Option<Seq<char>>,
}

impl View for PokemonSprites {
    type V = PokemonSpritesV;

    open spec fn view(&self) -> PokemonSpritesV {
        PokemonSpritesV {
            front_default: match self.front_default {
                Some(ref s) => Some(s@),
                None => None,
            },
            back_default: match self.back_default {
                Some(ref s) => Some(s@),
                None => None,
            },
        }
    }
}

/// The fetched domain record.
#[derive(Debug, Clone, PartialEq)]
pub struct Pokemon {
    pub id: u32,
    pub name: String,
    pub height: u32,
    pub weight: u32,
    pub base_experience: Option<u32>,
    pub sprites: PokemonSprites,
    pub types: Vec<PokemonType>,
}

/// Mathematical image of [`Pokemon`].
pub struct PokemonV {
    pub id: u32,
    pub name: Seq<char>,
    pub height: u32,
    pub weight: u32,
    pub base_experience: Option<u32>,
    pub sprites: PokemonSpritesV,
    pub types: Seq<PokemonTypeV>,
}

impl View for Pokemon {
    type V = PokemonV;

    open spec fn view(&self) -> PokemonV {
        PokemonV {
            id: self.id,
            name: self.name@,
            height: self.height,
            weight: self.weight,
            base_experience: self.base_experience,
            sprites: self.sprites@,
            types: self.types@.map_values(|t: PokemonType| t@),
        }
    }
}

/// The uniform result envelope handed to callers: exactly one of
/// `pokemon` / `error` is present, according to `success`.
#[derive(Debug, Clone, PartialEq)]
pub struct PokemonResult {
    pub success: bool,
    pub pokemon: Option<Pokemon>,
    pub error: Option<String>,
}

/// Mathematical image of [`PokemonResult`].
pub struct PokemonResultV {
    pub success: bool,
    pub pokemon: Option<PokemonV>,
    pub error: Option<Seq<char>>,
}

impl View for PokemonResult {
    type V = PokemonResultV;

    open spec fn view(&self) -> PokemonResultV {
        PokemonResultV {
            success: self.success,
            pokemon: match self.pokemon {
                Some(ref p) => Some(p@),
                None => None,
            },
            error: match self.error {
                Some(ref e) => Some(e@),
                None => None,
            },
        }
    }
}

/// The envelope invariant: data is present exactly on success, an error
/// text exactly on failure.
pub open spec fn envelope_wf(r: PokemonResultV) -> bool {
    &&& r.success ==> r.pokemon is Some && r.error is None
    &&& !r.success ==> r.pokemon is None && r.error is Some
}

/// The envelope a successful fetch produces.
pub open spec fn ok_envelope(p: PokemonV) -> PokemonResultV {
    PokemonResultV { success: true, pokemon: Some(p), error: None }
}

/// The envelope a failed fetch produces.
pub open spec fn err_envelope(e: Seq<char>) -> PokemonResultV {
    PokemonResultV { success: false, pokemon: None, error: Some(e) }
}

/// Wraps a fetch outcome into the uniform envelope: a record becomes a
/// success envelope, an error text a failure envelope.  Pure mapping.
pub fn build_envelope(outcome: Result<Pokemon, String>) -> (r: PokemonResult)
    ensures
        match outcome {
            Ok(p) => r@ == ok_envelope(p@),
            Err(e) => r@ == err_envelope(e@),
        },
        envelope_wf(r@),
{
    match outcome {
        Ok(p) => PokemonResult { success: true, pokemon: Some(p), error: None },
        Err(e) => PokemonResult { success: false, pokemon: None, error: Some(e) },
    }
}

/// The range of identifiers the upstream catalog knows.
pub open spec fn id_valid(id: u32) -> bool {
    1 <= id <= 1025
}

/// Checks an identifier against the catalog range.
pub fn check_id(id: u32) -> (b: bool)
    ensures
        b == id_valid(id),
{
    1 <= id && id <= 1025
}

} // verus!
