//! The words that select an operation on the command line.

use vstd::prelude::*;

verus! {

/// The operations that can be selected.
#[derive(Debug, Clone, Copy, PartialEq, Eq, Structural)]
pub enum Command {
    Deploy,
    SetExactFee,
    SetPercentageFee,
    ClaimFees,
    Transfer,
    GetTokenFee,
    GetPaidFees,
}

/// The operation that a word selects, if it selects any.
pub open spec fn command_named(word: Seq<char>) -> Option<Command> {
    if word == "deploy"@ {
        Some(Command::Deploy)
    } else if word == "set-exact-fee"@ {
        Some(Command::SetExactFee)
    } else if word == "set-percentage-fee"@ {
        Some(Command::SetPercentageFee)
    } else if word == "claim-fees"@ {
        Some(Command::ClaimFees)
    } else if word == "transfer"@ {
        Some(Command::Transfer)
    } else if word == "get-token-fee"@ {
        Some(Command::GetTokenFee)
    } else if word == "get-paid-fees"@ {
        Some(Command::GetPaidFees)
    } else {
        None
    }
}

/// The word that selects an operation.
pub open spec fn command_word(command: Command) -> Seq<char> {
    match command {
        Command::Deploy => "deploy"@,
        Command::SetExactFee => "set-exact-fee"@,
        Command::SetPercentageFee => "set-percentage-fee"@,
        Command::ClaimFees => "claim-fees"@,
        Command::Transfer => "transfer"@,
        Command::GetTokenFee => "get-token-fee"@,
        Command::GetPaidFees => "get-paid-fees"@,
    }
}

fn same_text(a: &str, b: &str) -> (r: bool)
    ensures
        r == (a@ == b@),
{
    a.to_owned() == b.to_owned()
}

impl Command {
    /// Reads a command word. A word that selects nothing gives `None`.
    pub fn parse(word: &str) -> (r: Option<Command>)
        ensures
            r == command_named(word@),
    {
        if same_text(word, "deploy") {
            Some(Command::Deploy)
        } else if same_text(word, "set-exact-fee") {
            Some(Command::SetExactFee)
        } else if same_text(word, "set-percentage-fee") {
            Some(Command::SetPercentageFee)
        } else if same_text(word, "claim-fees") {
            Some(Command::ClaimFees)
        } else if same_text(word, "transfer") {
            Some(Command::Transfer)
        } else if same_text(word, "get-token-fee") {
            Some(Command::GetTokenFee)
        } else if same_text(word, "get-paid-fees") {
            Some(Command::GetPaidFees)
        } else {
            None
        }
    }

    /// The word that selects this command.
    pub fn word(&self) -> (r: &'static str)
        ensures
            r@ == command_word(*self),
    {
        match self {
            Command::Deploy => "deploy",
            Command::SetExactFee => "set-exact-fee",
            Command::SetPercentageFee => "set-percentage-fee",
            Command::ClaimFees => "claim-fees",
            Command::Transfer => "transfer",
            Command::GetTokenFee => "get-token-fee",
            Command::GetPaidFees => "get-paid-fees",
        }
    }

    /// Whether the command needs a deployed contract: all do but `deploy`.
    pub fn needs_contract(&self) -> (r: bool)
        ensures
            r == !(*self is Deploy),
    {
        match self {
            Command::Deploy => false,
            _ => true,
        }
    }
}

/// Every command is selected by its own word.
pub proof fn lemma_word_selects_command(command: Command)
    ensures
        command_named(command_word(command)) == Some(command),
{
    reveal_strlit("deploy");
    reveal_strlit("set-exact-fee");
    reveal_strlit("set-percentage-fee");
    reveal_strlit("claim-fees");
    reveal_strlit("transfer");
    reveal_strlit("get-token-fee");
    reveal_strlit("get-paid-fees");
    // Words of one length differ in a character.
    assert("deploy"@.len() == 6);
    assert("set-exact-fee"@.len() == 13);
    assert("set-percentage-fee"@.len() == 18);
    assert("claim-fees"@.len() == 10);
    assert("transfer"@.len() == 8);
    assert("get-token-fee"@.len() == 13);
    assert("get-paid-fees"@.len() == 13);
    assert("set-exact-fee"@[0] == 's');
    assert("get-token-fee"@[0] == 'g');
    assert("get-token-fee"@[4] == 't');
    assert("get-paid-fees"@[4] == 'p');
}

} // verus!
