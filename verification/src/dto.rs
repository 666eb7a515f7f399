//! Data-transfer shapes shared between client and server code, and their
//! conversions from the domain models.

use vstd::prelude::*;
use crate::models::ledger::EntryType;
use crate::models::task::Cadence;

verus! {

/// Transfer shape of [`Cadence`].
#[derive(Clone, Copy, Debug, PartialEq, Eq, Structural)]
pub enum CadenceDto {
    Daily,
    Weekly,
    OneTime,
}

/// Transfer shape of [`EntryType`].
#[derive(Clone, Copy, Debug, PartialEq, Eq, Structural)]
pub enum EntryTypeDto {
    Earned,
    Adjusted,
}

/// Transfer shape of [`crate::models::user::AccountType`].
#[derive(Clone, Copy, Debug, PartialEq, Eq, Structural)]
pub enum AccountTypeDto {
    Admin,
    User,
}

impl core::convert::From<Cadence> for CadenceDto {
    fn from(cadence: Cadence) -> (r: CadenceDto) {
        match cadence {
            Cadence::Daily => CadenceDto::Daily,
            Cadence::Weekly => CadenceDto::Weekly,
            Cadence::OneTime => CadenceDto::OneTime,
        }
    }
}

impl vstd::std_specs::convert::FromSpecImpl<Cadence> for CadenceDto {
    open spec fn obeys_from_spec() -> bool {
        true
    }

    open spec fn from_spec(cadence: Cadence) -> CadenceDto {
        match cadence {
            Cadence::Daily => CadenceDto::Daily,
            Cadence::Weekly => CadenceDto::Weekly,
            Cadence::OneTime => CadenceDto::OneTime,
        }
    }
}

impl core::convert::From<CadenceDto> for Cadence {
    fn from(dto: CadenceDto) -> (r: Cadence) {
        match dto {
            CadenceDto::Daily => Cadence::Daily,
            CadenceDto::Weekly => Cadence::Weekly,
            CadenceDto::OneTime => Cadence::OneTime,
        }
    }
}

impl vstd::std_specs::convert::FromSpecImpl<CadenceDto> for Cadence {
    open spec fn obeys_from_spec() -> bool {
        true
    }

    open spec fn from_spec(dto: CadenceDto) -> Cadence {
        match dto {
            CadenceDto::Daily => Cadence::Daily,
            CadenceDto::Weekly => Cadence::Weekly,
            CadenceDto::OneTime => Cadence::OneTime,
        }
    }
}

impl core::convert::From<EntryType> for EntryTypeDto {
    fn from(entry_type: EntryType) -> (r: EntryTypeDto) {
        match entry_type {
            EntryType::Earned => EntryTypeDto::Earned,
            EntryType::Adjusted => EntryTypeDto::Adjusted,
        }
    }
}

impl vstd::std_specs::convert::FromSpecImpl<EntryType> for EntryTypeDto {
    open spec fn obeys_from_spec() -> bool {
        true
    }

    open spec fn from_spec(entry_type: EntryType) -> EntryTypeDto {
        match entry_type {
            EntryType::Earned => EntryTypeDto::Earned,
            EntryType::Adjusted => EntryTypeDto::Adjusted,
        }
    }
}

/// Law: the two cadence conversions are mutual inverses.
pub proof fn lemma_cadence_dto_round_trip(cadence: Cadence, dto: CadenceDto)
    ensures
        <Cadence as vstd::std_specs::convert::FromSpec<CadenceDto>>::from_spec(
            <CadenceDto as vstd::std_specs::convert::FromSpec<Cadence>>::from_spec(cadence),
        ) == cadence,
        <CadenceDto as vstd::std_specs::convert::FromSpec<Cadence>>::from_spec(
            <Cadence as vstd::std_specs::convert::FromSpec<CadenceDto>>::from_spec(dto),
        ) == dto,
{
}

} // verus!
