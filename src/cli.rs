//! What a command line asks for: a command, an input and where the result goes.
use vstd::prelude::*;

use crate::error::CryptError;
use crate::ops::Command;

verus! {

/// Where the result of an invocation is written.
#[derive(Debug, Clone, PartialEq, Eq)]
pub enum Destination {
    /// A file of its own, at this path.
    SeparateFile(String),
    /// Over the input file, replaced atomically.
    OverwriteInPlace,
}

/// One invocation, as the command line gives it.
#[derive(Debug, Clone, PartialEq, Eq)]
pub struct Invocation {
    pub command: Command,
    pub input_path: String,
    pub destination: Destination,
}

/// The command that a command word names, if any.
pub open spec fn command_of(word: Seq<char>) -> Option<Command> {
    if word == "encrypt"@ {
        Some(Command::Encrypt)
    } else if word == "decrypt"@ {
        Some(Command::Decrypt)
    } else {
        None
    }
}

/// Reads the arguments of a program run, the program's own name first:
/// `<command> <input> <output>`, or `<command> -over <path>`.
pub fn parse_args(args: &Vec<String>) -> (r: Result<Invocation, CryptError>)
    ensures
        args@.len() < 3 ==> r == Err::<Invocation, CryptError>(CryptError::Usage),
        args@.len() == 3 || args@.len() > 4 ==> r == Err::<Invocation, CryptError>(
            CryptError::Arguments,
        ),
        args@.len() == 4 && command_of(args@[1]@) is None ==> r == Err::<Invocation, CryptError>(
            CryptError::UnknownCommand,
        ),
        args@.len() == 4 && command_of(args@[1]@) is Some ==> (r matches Ok(inv)
            && Some(inv.command) == command_of(args@[1]@)
            && if args@[2]@ == "-over"@ {
                inv.input_path@ == args@[3]@ && inv.destination is OverwriteInPlace
            } else {
                inv.input_path@ == args@[2]@ && (inv.destination matches Destination::SeparateFile(p)
                    && p@ == args@[3]@)
            }),
{
    if args.len() < 3 {
        return Err(CryptError::Usage);
    }
    if args.len() != 4 {
        return Err(CryptError::Arguments);
    }
    let encrypt_word = "encrypt".to_owned();
    let decrypt_word = "decrypt".to_owned();
    let over_flag = "-over".to_owned();
    let command = if args[1] == encrypt_word {
        Command::Encrypt
    } else if args[1] == decrypt_word {
        Command::Decrypt
    } else {
        return Err(CryptError::UnknownCommand);
    };
    if args[2] == over_flag {
        Ok(Invocation {
            command,
            input_path: args[3].clone(),
            destination: Destination::OverwriteInPlace,
        })
    } else {
        Ok(Invocation {
            command,
            input_path: args[2].clone(),
            destination: Destination::SeparateFile(args[3].clone()),
        })
    }
}

} // verus!
