//! The skill shop: the skills offered, section by section, and the skill
//! selected first when the shop opens.

use vstd::prelude::*;
use crate::labels::SkillType;
use crate::statuses::{id_before, id_less, lemma_id_transitive, lemma_id_trichotomy};
use crate::text::str_eq;

verus! {

/// A skill of the game's data, as the shop reads it.
#[derive(Clone, Debug)]
pub struct ShopSkill {
    pub id: String,
    pub name: String,
    pub skill_type: SkillType,
    pub hidden: bool,
}

/// Whether `id` is among `ids`.
pub open spec fn has_id(ids: Seq<String>, id: Seq<char>) -> bool {
    exists|j: int| 0 <= j < ids.len() && (#[trigger] ids[j])@ == id
}

/// Whether `id` is among `ids` (see `has_id`).
pub fn contains_id(ids: &Vec<String>, id: &str) -> (b: bool)
    ensures
        b == has_id(ids@, id@),
{
    let mut j: usize = 0;
    while j < ids.len()
        invariant
            j <= ids@.len(),
            forall|k: int| 0 <= k < j ==> (#[trigger] ids@[k])@ != id@,
        decreases ids@.len() - j,
    {
        if str_eq(ids[j].as_str(), id) {
            return true;
        }
        j = j + 1;
    }
    false
}

/// Whether the skill at `p` is offered in the section of `skill_type`: of
/// that type, not hidden, and not bought yet.
pub open spec fn offered(skills: Seq<ShopSkill>, bought: Seq<String>, p: int, skill_type: SkillType) -> bool {
    skills[p].skill_type == skill_type && !skills[p].hidden && !has_id(bought, skills[p].id@)
}

/// The order of a section: by name, then (equal names) by position.
pub open spec fn offered_before(skills: Seq<ShopSkill>, p: int, q: int) -> bool {
    id_before(skills[p].name@, skills[q].name@) || (skills[p].name@ == skills[q].name@ && p < q)
}

/// Whether `shown` lists the positions of the skills offered in the
/// section of `skill_type`, each once, in the order of their names.
pub open spec fn section_matches(
    skills: Seq<ShopSkill>,
    bought: Seq<String>,
    skill_type: SkillType,
    shown: Seq<usize>,
) -> bool {
    &&& forall|p: int|
        shown.contains(p as usize) && 0 <= p <= usize::MAX <==> (0 <= p < skills.len() && offered(
            skills,
            bought,
            p,
            skill_type,
        ))
    &&& forall|i: int, j: int|
        0 <= i < j < shown.len() ==> offered_before(skills, shown[i] as int, shown[j] as int)
}

/// The positions of the skills offered in the section of `skill_type`, in
/// the order of their names.
pub fn shop_section(skills: &Vec<ShopSkill>, bought: &Vec<String>, skill_type: SkillType) -> (shown:
    Vec<usize>)
    ensures
        section_matches(skills@, bought@, skill_type, shown@),
{
    let ghost all = skills@;
    let mut shown: Vec<usize> = Vec::new();
    let mut p: usize = 0;
    while p < skills.len()
        invariant
            all == skills@,
            p <= all.len(),
            forall|k: int| 0 <= k < shown@.len() ==> #[trigger] shown@[k] < p,
            forall|q: int|
                shown@.contains(q as usize) && 0 <= q <= usize::MAX <==> (0 <= q < p && offered(
                    all,
                    bought@,
                    q,
                    skill_type,
                )),
            forall|i: int, j: int|
                0 <= i < j < shown@.len() ==> offered_before(all, shown@[i] as int, shown@[j] as int),
        decreases all.len() - p,
    {
        if skills[p].skill_type == skill_type && !skills[p].hidden && !contains_id(
            bought,
            skills[p].id.as_str(),
        ) {
            let key = skills[p].name.as_str();
            let mut k: usize = 0;
            while k < shown.len() && !id_less(key, skills[shown[k]].name.as_str())
                invariant
                    all == skills@,
                    p < all.len(),
                    key@ == all[p as int].name@,
                    k <= shown@.len(),
                    forall|m: int| 0 <= m < shown@.len() ==> #[trigger] shown@[m] < p,
                    forall|m: int|
                        0 <= m < k ==> !id_before(key@, all[#[trigger] shown@[m] as int].name@),
                decreases shown@.len() - k,
            {
                k = k + 1;
            }
            let ghost before = shown@;
            proof {
                assert forall|m: int| k <= m < before.len() implies id_before(
                    key@,
                    all[before[m] as int].name@,
                ) by {
                    let km = all[before[k as int] as int].name@;
                    let mm = all[before[m] as int].name@;
                    if m > k {
                        assert(offered_before(all, before[k as int] as int, before[m] as int));
                        if id_before(km, mm) {
                            lemma_id_transitive(key@, km, mm, 0);
                        }
                    }
                }
            }
            shown.insert(k, p);
            proof {
                let after = shown@;
                assert(after == before.insert(k as int, p));
                assert forall|i: int, j: int|
                    0 <= i < j < after.len() implies offered_before(
                    all,
                    after[i] as int,
                    after[j] as int,
                ) by {
                    if j < k {
                        assert(after[i] == before[i] && after[j] == before[j]);
                    } else if j == k {
                        assert(after[i] == before[i]);
                        assert(before[i] < p);
                        let ki = all[before[i] as int].name@;
                        assert(!id_before(key@, ki));
                        lemma_id_trichotomy(key@, ki);
                    } else if i == k {
                        assert(after[j] == before[j - 1]);
                        assert(id_before(key@, all[before[j - 1] as int].name@));
                    } else if i < k {
                        assert(after[i] == before[i] && after[j] == before[j - 1]);
                    } else {
                        assert(after[i] == before[i - 1] && after[j] == before[j - 1]);
                    }
                }
                assert forall|q: int|
                    after.contains(q as usize) && 0 <= q <= usize::MAX <==> (0 <= q < p + 1
                        && offered(all, bought@, q, skill_type)) by {
                    if q == p {
                        assert(after[k as int] == p);
                    } else if 0 <= q <= usize::MAX && after.contains(q as usize) {
                        let m = choose|m: int| 0 <= m < after.len() && after[m] == q as usize;
                        if m < k {
                            assert(before[m] == q as usize);
                        } else if m > k {
                            assert(before[m - 1] == q as usize);
                        }
                    } else if 0 <= q <= usize::MAX && before.contains(q as usize) {
                        let m = choose|m: int| 0 <= m < before.len() && before[m] == q as usize;
                        if m < k {
                            assert(after[m] == q as usize);
                        } else {
                            assert(after[m + 1] == q as usize);
                        }
                    }
                }
                assert forall|m: int| 0 <= m < after.len() implies #[trigger] after[m] < p + 1 by {
                    if m < k {
                        assert(after[m] == before[m]);
                    } else if m > k {
                        assert(after[m] == before[m - 1]);
                    }
                }
            }
        }
        p = p + 1;
    }
    shown
}

/// The place of a skill type's section in the shop.
pub open spec fn type_rank(ty: SkillType) -> int {
    match ty {
        SkillType::Attack => 0,
        SkillType::Spell => 1,
        SkillType::Curse => 2,
        SkillType::Blessing => 3,
        SkillType::Other => 4,
    }
}

/// Whether some skill is offered in the section of `ty`.
pub open spec fn type_offered(skills: Seq<ShopSkill>, bought: Seq<String>, ty: SkillType) -> bool {
    exists|p: int| 0 <= p < skills.len() && offered(skills, bought, p, ty)
}

/// The shop's sections: for each skill type in turn (see `type_rank`), the
/// skills offered of that type in the order of their names (see
/// `shop_section`); a type that offers nothing has no section.
pub fn skill_sections(skills: &Vec<ShopSkill>, bought: &Vec<String>) -> (sections: Vec<
    (SkillType, Vec<usize>),
>)
    ensures
        forall|s: int| 0 <= s < sections@.len() ==> (#[trigger] sections@[s]).1@.len() > 0,
        forall|s: int, t: int|
            0 <= s < t < sections@.len() ==> type_rank((#[trigger] sections@[s]).0) < type_rank(
                (#[trigger] sections@[t]).0,
            ),
        forall|ty: SkillType|
            #[trigger] type_offered(skills@, bought@, ty) <==> (exists|s: int|
                0 <= s < sections@.len() && (#[trigger] sections@[s]).0 == ty),
        forall|s: int|
            0 <= s < sections@.len() ==> section_matches(
                skills@,
                bought@,
                (#[trigger] sections@[s]).0,
                sections@[s].1@,
            ),
{
    let mut types: Vec<SkillType> = Vec::new();
    types.push(SkillType::Attack);
    types.push(SkillType::Spell);
    types.push(SkillType::Curse);
    types.push(SkillType::Blessing);
    types.push(SkillType::Other);
    let mut sections: Vec<(SkillType, Vec<usize>)> = Vec::new();
    let mut a: usize = 0;
    while a < types.len()
        invariant
            types@.len() == 5,
            forall|b: int| 0 <= b < 5 ==> type_rank(#[trigger] types@[b]) == b,
            a <= 5,
            forall|s: int| 0 <= s < sections@.len() ==> (#[trigger] sections@[s]).1@.len() > 0,
            forall|s: int|
                0 <= s < sections@.len() ==> type_rank((#[trigger] sections@[s]).0) < a,
            forall|s: int, t: int|
                0 <= s < t < sections@.len() ==> type_rank((#[trigger] sections@[s]).0) < type_rank(
                    (#[trigger] sections@[t]).0,
                ),
            forall|ty: SkillType|
                (type_rank(ty) < a && #[trigger] type_offered(skills@, bought@, ty)) <==> (exists|
                    s: int,
                | 0 <= s < sections@.len() && (#[trigger] sections@[s]).0 == ty),
            forall|s: int|
                0 <= s < sections@.len() ==> section_matches(
                    skills@,
                    bought@,
                    (#[trigger] sections@[s]).0,
                    sections@[s].1@,
                ),
        decreases 5 - a,
    {
        let ty = types[a];
        assert(type_rank(ty) == a);
        let ghost old_sections = sections@;
        let section = shop_section(skills, bought, ty);
        if section.len() > 0 {
            sections.push((ty, section));
            proof {
                let p = section@[0] as int;
                assert(section@.contains(p as usize));
                assert(offered(skills@, bought@, p, ty));
                assert(type_offered(skills@, bought@, ty));
            }
        } else {
            proof {
                assert forall|p: int| 0 <= p < skills@.len() implies !offered(
                    skills@,
                    bought@,
                    p,
                    ty,
                ) by {
                    if offered(skills@, bought@, p, ty) {
                        assert(section@.contains(p as usize));
                    }
                }
                assert(!type_offered(skills@, bought@, ty));
            }
        }
        proof {
            assert forall|t: SkillType|
                (type_rank(t) < a + 1 && #[trigger] type_offered(skills@, bought@, t)) <==> (exists|
                    s: int,
                | 0 <= s < sections@.len() && (#[trigger] sections@[s]).0 == t) by {
                if type_rank(t) == a {
                    assert(t == ty);
                    if section@.len() > 0 {
                        assert(sections@[sections@.len() - 1].0 == t);
                    } else {
                        if exists|s: int| 0 <= s < sections@.len() && (#[trigger] sections@[s]).0 == t {
                            let s = choose|s: int|
                                0 <= s < sections@.len() && (#[trigger] sections@[s]).0 == t;
                            assert(type_rank(sections@[s].0) < a);
                        }
                    }
                } else {
                    if exists|s: int| 0 <= s < sections@.len() && (#[trigger] sections@[s]).0 == t {
                        let s = choose|s: int|
                            0 <= s < sections@.len() && (#[trigger] sections@[s]).0 == t;
                        if s < old_sections.len() {
                            assert(old_sections[s].0 == t);
                        } else {
                            assert(sections@[s].0 == ty);
                        }
                    }
                    if type_rank(t) < a && type_offered(skills@, bought@, t) {
                        let s = choose|s: int|
                            0 <= s < old_sections.len() && (#[trigger] old_sections[s]).0 == t;
                        assert(sections@[s] == old_sections[s]);
                    }
                }
            }
        }
        a = a + 1;
    }
    proof {
        assert forall|t: SkillType| #[trigger] type_offered(skills@, bought@, t) implies type_rank(t)
            < 5 by {}
    }
    sections
}

/// The first of the favourite skills not bought yet, if any.
pub open spec fn first_unbought(favorites: Seq<String>, bought: Seq<String>, from: int) -> Option<Seq<char>>
    decreases favorites.len() - from,
{
    if from < 0 || from >= favorites.len() {
        None
    } else if !has_id(bought, favorites[from]@) {
        Some(favorites[from]@)
    } else {
        first_unbought(favorites, bought, from + 1)
    }
}

/// The skill selected when the shop opens: the first favourite skill not
/// bought yet.
pub fn next_favorite_skill(favorites: &Vec<String>, bought: &Vec<String>) -> (r: Option<String>)
    ensures
        match r {
            Some(id) => first_unbought(favorites@, bought@, 0) == Some(id@),
            None => first_unbought(favorites@, bought@, 0) is None,
        },
{
    let mut i: usize = 0;
    while i < favorites.len()
        invariant
            i <= favorites@.len(),
            first_unbought(favorites@, bought@, 0) == first_unbought(favorites@, bought@, i as int),
        decreases favorites@.len() - i,
    {
        if !contains_id(bought, favorites[i].as_str()) {
            return Some(favorites[i].clone());
        }
        i = i + 1;
    }
    None
}

} // verus!
