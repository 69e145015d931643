use std::collections::HashMap;
use vstd::prelude::*;
use crate::champ::Champ;

verus! {

broadcast use vstd::std_specs::hash::group_hash_axioms;

/// Whether `riven` lists a champion with the numeric id `id`.
pub uninterp spec fn champion_is_known(id: i32) -> bool;

/// Calls `riven`'s `Champion::is_known` on the champion with the numeric id
/// `id`. The result is a function of the id alone; which ids are known is
/// `riven`'s list and is not restated here.
#[verifier::external_body]
fn is_known_champion(id: i32) -> (known: bool)
    ensures
        known == champion_is_known(id),
{
    riven::consts::Champion::from(id).is_known()
}

/// The ids of a list of named champions, in order.
pub open spec fn champ_ids(all_champs: Seq<(String, Champ)>) -> Seq<u16> {
    all_champs.map_values(|entry: (String, Champ)| entry.1.id)
}

/// The map from each id in `ids` to its position; an id that occurs more
/// than once goes to its last position.
pub open spec fn index_map(ids: Seq<u16>) -> Map<u16, usize>
    decreases ids.len(),
{
    if ids.len() == 0 {
        Map::empty()
    } else {
        index_map(ids.drop_last()).insert(ids.last(), (ids.len() - 1) as usize)
    }
}

/// The index map holds exactly the ids listed, each with a position at
/// which it stands and after which it does not occur again.
pub proof fn lemma_index_map_is_last_position(ids: Seq<u16>, id: u16)
    requires
        ids.len() <= usize::MAX,
    ensures
        index_map(ids).contains_key(id) <==> ids.contains(id),
        ids.contains(id) ==> {
            let at = index_map(ids)[id] as int;
            &&& 0 <= at < ids.len()
            &&& ids[at] == id
            &&& forall|j: int| at < j < ids.len() ==> ids[j] != id
        },
    decreases ids.len(),
{
    if ids.len() > 0 {
        let front = ids.drop_last();
        lemma_index_map_is_last_position(front, id);
        if ids.last() == id {
            assert(ids[ids.len() - 1] == id);
        } else {
            if ids.contains(id) {
                let k = choose|k: int| 0 <= k < ids.len() && ids[k] == id;
                assert(front[k] == id);
            }
            if front.contains(id) {
                let k = choose|k: int| 0 <= k < front.len() && front[k] == id;
                assert(ids[k] == id);
                let at = index_map(front)[id] as int;
                assert(ids[at] == front[at]);
                assert forall|j: int| at < j < ids.len() implies ids[j] != id by {
                    if j < front.len() {
                        assert(ids[j] == front[j]);
                    }
                }
            }
        }
    }
}

/// The position of each champion in `all_champs`, by the champion's id.
pub fn map_champ_id_to_index(all_champs: &Vec<(String, Champ)>) -> (map: HashMap<u16, usize>)
    ensures
        map@ == index_map(champ_ids(all_champs@)),
{
    let ghost ids = champ_ids(all_champs@);
    let mut map: HashMap<u16, usize> = HashMap::new();
    let mut i: usize = 0;
    assert(ids.take(0) =~= Seq::<u16>::empty());
    while i < all_champs.len()
        invariant
            i <= all_champs.len(),
            ids == champ_ids(all_champs@),
            map@ == index_map(ids.take(i as int)),
        decreases all_champs.len() - i,
    {
        proof {
            assert(ids.take(i + 1).drop_last() =~= ids.take(i as int));
            assert(ids.take(i + 1).last() == all_champs@[i as int].1.id);
        }
        map.insert(all_champs[i].1.id, i);
        i += 1;
    }
    assert(ids.take(all_champs.len() as int) =~= ids);
    map
}

/// The model input position of a champion: its position in the index map,
/// and the position after all of them for a champion that the map lacks.
pub open spec fn input_position(champ_dict: Map<u16, usize>, champ: Champ) -> usize {
    if champ_dict.contains_key(champ.id) {
        champ_dict[champ.id]
    } else {
        champ_dict.len() as usize
    }
}

/// The model input positions of a team's five champions.
pub fn one_hot_positions(team: &[Champ; 5], champ_dict: &HashMap<u16, usize>) -> (positions: [usize;
    5])
    ensures
        forall|k: int| 0 <= k < 5 ==> positions@[k] == input_position(champ_dict@, team@[k]),
{
    let tot_champs = champ_dict.len();
    let mut positions: [usize; 5] = [tot_champs, tot_champs, tot_champs, tot_champs, tot_champs];
    let mut k: usize = 0;
    while k < 5
        invariant
            k <= 5,
            tot_champs == champ_dict@.len() as usize,
            forall|j: int| 0 <= j < k ==> positions@[j] == input_position(champ_dict@, team@[j]),
        decreases 5 - k,
    {
        let id = team[k].id;
        let at = match champ_dict.get(&id) {
            Some(position) => *position,
            None => tot_champs,
        };
        positions[k] = at;
        k += 1;
    }
    positions
}

/// How many of the ids from 0 up to but not including `below` are known
/// champions.
pub open spec fn known_below(below: int) -> nat
    decreases below,
{
    if below <= 0 {
        0
    } else {
        known_below(below - 1) + if champion_is_known((below - 1) as i32) {
            1nat
        } else {
            0nat
        }
    }
}

/// The known champions with ids from 0 to 1000, each with its rank among
/// them by id.
pub fn init_all_champs() -> (all_champs: HashMap<i32, usize>)
    ensures
        forall|id: i32| #[trigger]
            all_champs@.contains_key(id) ==> 0 <= id <= 1000 && champion_is_known(id),
        forall|id: i32|
            0 <= id <= 1000 && #[trigger] champion_is_known(id) ==> all_champs@.contains_key(id),
        forall|id: i32| #[trigger]
            all_champs@.contains_key(id) ==> all_champs@[id] == known_below(id as int),
{
    let mut all_champs: HashMap<i32, usize> = HashMap::new();
    let mut rank: usize = 0;
    let mut i: i32 = 0;
    while i <= 1000
        invariant
            0 <= i <= 1001,
            rank == known_below(i as int),
            rank <= i,
            forall|id: i32| #[trigger]
                all_champs@.contains_key(id) ==> 0 <= id < i && champion_is_known(id),
            forall|id: i32|
                0 <= id < i && #[trigger] champion_is_known(id) ==> all_champs@.contains_key(id),
            forall|id: i32| #[trigger]
                all_champs@.contains_key(id) ==> all_champs@[id] == known_below(id as int),
        decreases 1001 - i,
    {
        if is_known_champion(i) {
            all_champs.insert(i, rank);
            rank += 1;
        }
        i += 1;
    }
    all_champs
}

/// The training input position of a champion: its rank for a known
/// champion, the position after all ranks for an unknown one. `None` for a
/// known champion that `all_champs` lacks.
pub open spec fn node_position(all_champs: Map<i32, usize>, id: i32) -> Option<usize> {
    if !champion_is_known(id) {
        Some(all_champs.len() as usize)
    } else if all_champs.contains_key(id) {
        Some(all_champs[id])
    } else {
        None
    }
}

/// The training input positions of five champions; `None` where one of them
/// is a known champion that `all_champs` lacks.
pub fn node_positions(champ_list: &[i32; 5], all_champs: &HashMap<i32, usize>) -> (positions:
    Option<[usize; 5]>)
    ensures
        match positions {
            Some(p) => forall|k: int|
                0 <= k < 5 ==> node_position(all_champs@, champ_list@[k]) == Some(p@[k]),
            None => exists|k: int|
                0 <= k < 5 && node_position(all_champs@, champ_list@[k]) is None,
        },
{
    let tot_champs = all_champs.len();
    let mut positions: [usize; 5] = [tot_champs, tot_champs, tot_champs, tot_champs, tot_champs];
    let mut k: usize = 0;
    while k < 5
        invariant
            k <= 5,
            tot_champs == all_champs@.len() as usize,
            forall|j: int|
                0 <= j < k ==> node_position(all_champs@, champ_list@[j]) == Some(positions@[j]),
        decreases 5 - k,
    {
        let id = champ_list[k];
        if is_known_champion(id) {
            match all_champs.get(&id) {
                Some(position) => {
                    positions[k] = *position;
                },
                None => {
                    assert(node_position(all_champs@, champ_list@[k as int]) is None);
                    return None;
                },
            }
        } else {
            positions[k] = tot_champs;
        }
        k += 1;
    }
    Some(positions)
}

} // verus!
