//! The durable record of the last deployed contract address.

use vstd::prelude::*;
use crate::address::{
    address_of,
    bech32_decoded,
    without_marker,
    AddressError,
    AddressView,
    Bech32Address,
};

verus! {

/// Why an operation on the record cannot go on.
#[derive(Debug, Clone, Copy, PartialEq, Eq, Structural)]
pub enum StateError {
    /// No contract address is known: nothing was deployed yet.
    NotDeployed,
    /// The stored address text is not a valid address.
    Malformed(AddressError),
}

/// The record kept between runs: the address of the contract, once deployed.
#[derive(Debug)]
pub struct State {
    contract_address: Option<Bech32Address>,
}

impl View for State {
    type V = Option<AddressView>;

    closed spec fn view(&self) -> Option<AddressView> {
        match self.contract_address {
            Some(a) => Some(a@),
            None => None,
        }
    }
}

/// The record that a stored address text, or its absence, stands for.
pub open spec fn loaded(stored: Option<Seq<char>>) -> Result<Option<AddressView>, StateError> {
    match stored {
        None => Ok(None),
        Some(text) => match address_of(without_marker(text), bech32_decoded(without_marker(text))) {
            Ok(a) => Ok(Some(a)),
            Err(e) => Err(StateError::Malformed(e)),
        },
    }
}

/// The address text that a record puts into storage.
pub open spec fn stored_text(state: Option<AddressView>) -> Option<Seq<char>> {
    match state {
        Some(a) => Some(a.text),
        None => None,
    }
}

/// Same text or absence of it, seen through the view.
pub open spec fn text_view(text: Option<String>) -> Option<Seq<char>> {
    match text {
        Some(t) => Some(t@),
        None => None,
    }
}

/// Same outcome, with the record seen through its view.
pub open spec fn state_result_view(r: Result<State, StateError>) -> Result<
    Option<AddressView>,
    StateError,
> {
    match r {
        Ok(s) => Ok(s@),
        Err(e) => Err(e),
    }
}

impl Default for State {
    fn default() -> (r: Self)
        ensures
            r@ is None,
            r.wf(),
    {
        State { contract_address: None }
    }
}

impl State {
    /// Every address in a record is well formed.
    pub open spec fn wf(&self) -> bool {
        self@ matches Some(a) ==> a.bytes.len() == crate::address::ADDRESS_LEN
    }

    /// Whether a contract address is known.
    pub open spec fn deployed(&self) -> bool {
        self@ is Some
    }

    /// Builds the record from what storage held: nothing, or the address
    /// text. A text that is no address is an error.
    pub fn load_state(stored: Option<String>) -> (r: Result<Self, StateError>)
        ensures
            state_result_view(r) == loaded(text_view(stored)),
            r matches Ok(s) ==> s.wf(),
    {
        match stored {
            None => Ok(State { contract_address: None }),
            Some(text) => match Bech32Address::from_stored(text.as_str()) {
                Ok(address) => Ok(State { contract_address: Some(address) }),
                Err(e) => Err(StateError::Malformed(e)),
            },
        }
    }

    /// Sets the contract address.
    pub fn set_address(&mut self, address: Bech32Address)
        requires
            address.wf(),
        ensures
            final(self)@ == Some(address@),
            final(self).wf(),
    {
        self.contract_address = Some(address);
    }

    /// Returns the contract address, or `NotDeployed` where none is known.
    pub fn current_address(&self) -> (r: Result<&Bech32Address, StateError>)
        ensures
            self@ is None <==> r is Err,
            r matches Err(e) ==> e == StateError::NotDeployed,
            r matches Ok(a) ==> self@ == Some(a@) && (self.wf() ==> a.wf()),
    {
        match &self.contract_address {
            Some(a) => Ok(a),
            None => Err(StateError::NotDeployed),
        }
    }

    /// Whether a contract address is known.
    pub fn is_deployed(&self) -> (r: bool)
        ensures
            r == self.deployed(),
    {
        self.contract_address.is_some()
    }

    /// The address text to put into storage, or `None` where there is no
    /// address to store.
    pub fn save(&self) -> (r: Option<String>)
        ensures
            text_view(r) == stored_text(self@),
    {
        match &self.contract_address {
            Some(a) => Some(a.to_bech32_string()),
            None => None,
        }
    }
}

/// Loading a record and saving it at once stores the address text that was
/// loaded: the text itself, or what follows its legacy marker.
pub proof fn lemma_load_then_save(stored: Option<Seq<char>>)
    requires
        loaded(stored) is Ok,
    ensures
        stored_text(loaded(stored).unwrap()) == match stored {
            Some(text) => Some(without_marker(text)),
            None => None,
        },
        stored matches Some(text) && !crate::address::legacy_marker().is_prefix_of(text)
            ==> stored_text(loaded(stored).unwrap()) == stored,
{
}

} // verus!
