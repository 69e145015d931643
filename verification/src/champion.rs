use vstd::prelude::*;

verus! {

/// The error that `riven` reports for a champion name it does not know.
#[verifier::external_type_specification]
#[verifier::external_body]
pub struct ExParseChampionError(riven::consts::ParseChampionError);

/// The numeric id that `riven` assigns to a champion name, or `None` where it
/// knows no champion of that name.
pub uninterp spec fn champion_id_of_name(name: Seq<char>) -> Option<i32>;

/// Calls `riven`'s `FromStr` for `Champion` on `name` and hands back the
/// champion's numeric id. The result is a function of the name alone; which
/// id belongs to which name is `riven`'s table and is not restated here.
#[verifier::external_body]
fn parse_champion(name: &str) -> (r: Result<i32, riven::consts::ParseChampionError>)
    ensures
        match r {
            Ok(id) => champion_id_of_name(name@) == Some(id),
            Err(_) => champion_id_of_name(name@) is None,
        },
{
    name.parse::<riven::consts::Champion>().map(i32::from)
}

/// Resolves a champion name to its numeric id, or `None` for a name that
/// names no champion.
pub fn champion_id(name: &str) -> (r: Option<i32>)
    ensures
        r == champion_id_of_name(name@),
{
    match parse_champion(name) {
        Ok(id) => Some(id),
        Err(_) => None,
    }
}

} // verus!
