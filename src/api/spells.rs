use vstd::prelude::*;

use crate::api::shared::ApiError;
use crate::classes::{Class, ClassSpellCasting};

verus! {

/// Filter on a text field of the reference service.
#[derive(Debug, Clone)]
pub struct StringFilter(pub String);

/// Arguments of a query for the spells of a class.
#[derive(Debug, Clone)]
pub struct SpellsQueryVariables {
    pub class: Option<StringFilter>,
}

/// A spell: its identifier and its level, 0 for a cantrip.
#[derive(Debug, Clone)]
pub struct Spell {
    pub index: String,
    pub level: i32,
}

/// Answer to a [`SpellsQueryVariables`] query.
#[derive(Debug, Clone)]
pub struct SpellsQuery {
    pub spells: Option<Vec<Spell>>,
}

/// What an answer to a spells query yields: the spells, or the error. An answer without data
/// or without its spell list is a schema error.
pub open spec fn answered_spells(response: Result<Option<SpellsQuery>, ApiError>) -> Result<
    Vec<Spell>,
    ApiError,
> {
    match response {
        Err(e) => Err(e),
        Ok(None) => Err(ApiError::Schema),
        Ok(Some(q)) => match q.spells {
            None => Err(ApiError::Schema),
            Some(spells) => Ok(spells),
        },
    }
}

impl Class {
    /// Arguments of the query for the spells that this class can cast.
    pub fn spells_query(&self) -> (r: SpellsQueryVariables)
        ensures
            r.class matches Some(StringFilter(c)) && c@ == self.index_spec(),
    {
        SpellsQueryVariables { class: Some(StringFilter(self.0.clone())) }
    }

    /// The spells that this class can cast, from the service's answer to
    /// [`Class::spells_query`]: those it can learn, or those it can prepare.
    pub fn get_spells(&self, response: Result<Option<SpellsQuery>, ApiError>) -> (r: Result<
        Vec<Spell>,
        ApiError,
    >)
        ensures
            r == answered_spells(response),
    {
        match response {
            Err(e) => Err(e),
            Ok(None) => Err(ApiError::Schema),
            Ok(Some(q)) => match q.spells {
                None => Err(ApiError::Schema),
                Some(spells) => Ok(spells),
            },
        }
    }

    /// The spells prepared for the day, grouped; none for a class that does not prepare from
    /// its whole list.
    pub fn get_ready_spells(&self) -> (r: Result<Vec<Vec<String>>, ApiError>)
        ensures
            r matches Ok(v) && match self.1.spell_casting {
                Some(ClassSpellCasting::AlreadyKnowPrepared { spells_prepared_index, .. }) => v.deep_view()
                    == spells_prepared_index.deep_view(),
                _ => v@.len() == 0,
            },
    {
        match &self.1.spell_casting {
            Some(ClassSpellCasting::AlreadyKnowPrepared { spells_prepared_index, .. }) => {
                let v = spells_prepared_index.clone();
                Ok(v)
            },
            _ => Ok(Vec::new()),
        }
    }
}

} // verus!
