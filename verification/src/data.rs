//! The names of skills and statuses that the game's data gives, and what
//! is shown where the data lacks one.

use vstd::prelude::*;
use vstd::string::*;
use crate::text::str_eq;

verus! {

/// The names known for skills and statuses, by identifier.
pub struct DataNames {
    skills: Vec<(String, String)>,
    statuses: Vec<(String, String, Option<String>)>,
    loaded: bool,
}

/// The name for `id` among `table` (the first entry for it), from `from` on.
pub open spec fn skill_name_in(table: Seq<(String, String)>, id: Seq<char>, from: int) -> Option<
    Seq<char>,
>
    decreases table.len() - from,
{
    if from < 0 || from >= table.len() {
        None
    } else if table[from].0@ == id {
        Some(table[from].1@)
    } else {
        skill_name_in(table, id, from + 1)
    }
}

/// The entry for `id` among `table` (the first one), from `from` on.
pub open spec fn status_in(table: Seq<(String, String, Option<String>)>, id: Seq<char>, from: int) -> Option<
    (String, String, Option<String>),
>
    decreases table.len() - from,
{
    if from < 0 || from >= table.len() {
        None
    } else if table[from].0@ == id {
        Some(table[from])
    } else {
        status_in(table, id, from + 1)
    }
}

impl DataNames {
    /// No data loaded yet.
    pub fn new() -> (d: Self)
        ensures
            d.skills().len() == 0,
            d.statuses().len() == 0,
            !d.loaded(),
    {
        DataNames { skills: Vec::new(), statuses: Vec::new(), loaded: false }
    }

    /// Whether all the game's data arrived.
    pub closed spec fn loaded(&self) -> bool {
        self.loaded
    }

    /// Whether all the game's data arrived (it is then not asked for again).
    pub fn is_loaded(&self) -> (b: bool)
        ensures
            b == self.loaded(),
    {
        self.loaded
    }

    /// The backend's answers to the requests for the game's data, taken in
    /// turn: the areas' answer (`areas`), the skills, the statuses, then
    /// the answers for the rest of the data (`rest`, the first error among
    /// them if any). Each answer that came is stored until the first error,
    /// which is returned; the data counts as loaded only when every answer
    /// came.
    pub fn load_answers<E>(
        &mut self,
        areas: Result<(), E>,
        skills: Result<Vec<(String, String)>, E>,
        statuses: Result<Vec<(String, String, Option<String>)>, E>,
        rest: Result<(), E>,
    ) -> (r: Result<(), E>)
        ensures
            match (areas, skills, statuses, rest) {
                (Err(e), _, _, _) => r == Err::<(), E>(e) && final(self).skills() == old(
                    self,
                ).skills() && final(self).statuses() == old(self).statuses() && final(self).loaded()
                    == old(self).loaded(),
                (Ok(_), Err(e), _, _) => r == Err::<(), E>(e) && final(self).skills() == old(
                    self,
                ).skills() && final(self).statuses() == old(self).statuses() && final(self).loaded()
                    == old(self).loaded(),
                (Ok(_), Ok(sk), Err(e), _) => r == Err::<(), E>(e) && final(self).skills() == sk@
                    && final(self).statuses() == old(self).statuses() && final(self).loaded()
                    == old(self).loaded(),
                (Ok(_), Ok(sk), Ok(st), Err(e)) => r == Err::<(), E>(e) && final(self).skills()
                    == sk@ && final(self).statuses() == st@ && final(self).loaded() == old(
                    self,
                ).loaded(),
                (Ok(_), Ok(sk), Ok(st), Ok(_)) => r == Ok::<(), E>(()) && final(self).skills()
                    == sk@ && final(self).statuses() == st@ && final(self).loaded(),
            },
    {
        match areas {
            Err(e) => return Err(e),
            Ok(_) => {},
        }
        match skills {
            Err(e) => return Err(e),
            Ok(sk) => self.skills = sk,
        }
        match statuses {
            Err(e) => return Err(e),
            Ok(st) => self.statuses = st,
        }
        match rest {
            Err(e) => return Err(e),
            Ok(_) => {},
        }
        self.loaded = true;
        Ok(())
    }

    /// The skills' names: identifier and name.
    pub closed spec fn skills(&self) -> Seq<(String, String)> {
        self.skills@
    }

    /// The statuses: identifier, name and adjective.
    pub closed spec fn statuses(&self) -> Seq<(String, String, Option<String>)> {
        self.statuses@
    }

    /// The data arrived.
    pub fn load(&mut self, skills: Vec<(String, String)>, statuses: Vec<(String, String, Option<String>)>)
        ensures
            final(self).skills() == skills@,
            final(self).statuses() == statuses@,
            final(self).loaded() == old(self).loaded(),
    {
        self.skills = skills;
        self.statuses = statuses;
    }

    /// The name of the skill `id`, or `id` itself where the data lacks it.
    pub fn skill_name(&self, id: &str) -> (name: String)
        ensures
            name@ == match skill_name_in(self.skills(), id@, 0) {
                Some(n) => n,
                None => id@,
            },
    {
        let mut i: usize = 0;
        while i < self.skills.len()
            invariant
                i <= self.skills@.len(),
                skill_name_in(self.skills@, id@, 0) == skill_name_in(self.skills@, id@, i as int),
            decreases self.skills@.len() - i,
        {
            if str_eq(self.skills[i].0.as_str(), id) {
                return self.skills[i].1.clone();
            }
            i = i + 1;
        }
        String::from_str(id)
    }

    fn status_index(&self, id: &str) -> (r: Option<usize>)
        ensures
            match r {
                Some(i) => i < self.statuses@.len() && status_in(self.statuses@, id@, 0) == Some(
                    self.statuses@[i as int],
                ),
                None => status_in(self.statuses@, id@, 0) is None,
            },
    {
        let mut i: usize = 0;
        while i < self.statuses.len()
            invariant
                i <= self.statuses@.len(),
                status_in(self.statuses@, id@, 0) == status_in(self.statuses@, id@, i as int),
            decreases self.statuses@.len() - i,
        {
            if str_eq(self.statuses[i].0.as_str(), id) {
                return Some(i);
            }
            i = i + 1;
        }
        None
    }

    /// The name of the status `id`, or `id` itself where the data lacks it.
    pub fn status_name(&self, id: &str) -> (name: String)
        ensures
            name@ == match status_in(self.statuses(), id@, 0) {
                Some(s) => s.1@,
                None => id@,
            },
    {
        match self.status_index(id) {
            Some(i) => self.statuses[i].1.clone(),
            None => String::from_str(id),
        }
    }

    /// The adjective of the status `id`, where the data gives one.
    pub fn status_adjective(&self, id: &str) -> (adjective: Option<String>)
        ensures
            match adjective {
                Some(a) => status_in(self.statuses(), id@, 0) matches Some(s) && s.2 matches Some(
                    b,
                ) && a@ == b@,
                None => match status_in(self.statuses(), id@, 0) {
                    Some(s) => s.2 is None,
                    None => true,
                },
            },
    {
        match self.status_index(id) {
            Some(i) => match &self.statuses[i].2 {
                Some(a) => Some(a.clone()),
                None => None,
            },
            None => None,
        }
    }
}

} // verus!
