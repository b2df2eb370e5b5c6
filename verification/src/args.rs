//! The command line as it was typed, and the typed values that it resolves
//! to.

use vstd::prelude::*;
use crate::hex::{from_hex, hex_bytes, hex_error_text, is_hex_text};
use crate::numeric::{
    address_error_text, big_endian_value, fits_u256, is_address_text, padded_hex,
    parse_address, parse_u256, u256_error_text, within_u256_width, Address, U256,
};

verus! {

/// The options of one invocation, each as the text that was given for it.
#[derive(Clone, Debug, PartialEq, Eq)]
pub struct Args {
    pub flag_code_file: Option<String>,
    pub flag_only: Option<String>,
    pub flag_from: Option<String>,
    pub flag_to: Option<String>,
    pub flag_code: Option<String>,
    pub flag_gas: Option<String>,
    pub flag_gas_price: Option<String>,
    pub flag_input: Option<String>,
    pub flag_expected: Option<String>,
}

/// The typed values of one call, with the code and the expected output that
/// a run cannot do without.
#[derive(Clone, Debug, PartialEq, Eq)]
pub struct ResolvedCallParameters {
    pub sender: Address,
    pub recipient: Address,
    pub gas_limit: U256,
    pub gas_price: U256,
    pub code: Vec<u8>,
    pub input_data: Option<Vec<u8>>,
    pub expected_output: String,
}

/// The diagnostic for an option whose value was refused.
pub open spec fn invalid_text(param: Seq<char>, e: Seq<char>) -> Seq<char> {
    "Invalid "@ + param + ": "@ + e
}

/// The diagnostic for a command line that names no code.
pub open spec fn missing_code_text() -> Seq<char> {
    "Either --code or --code-file is required."@
}

/// The diagnostic for a command line that names no expected output.
pub open spec fn missing_expected_text() -> Seq<char> {
    "Expected return data --expected is required."@
}

/// The text of an option, where it was given.
pub open spec fn text_of(flag: Option<String>) -> Option<Seq<char>> {
    match flag {
        Some(t) => Some(t@),
        None => None,
    }
}

/// What an optional integer resolves to: the default where it is absent.
pub open spec fn u256_outcome(flag: Option<Seq<char>>, default: nat) -> Result<
    nat,
    Seq<char>,
> {
    match flag {
        None => Ok(default),
        Some(t) => if is_hex_text(padded_hex(t)) {
            Ok(big_endian_value(hex_bytes(padded_hex(t))))
        } else {
            Err(u256_error_text(t))
        },
    }
}

/// What an optional address resolves to: 20 zero bytes where it is absent.
pub open spec fn address_outcome(flag: Option<Seq<char>>) -> Result<Seq<u8>, Seq<char>> {
    match flag {
        None => Ok(Seq::new(20, |i: int| 0u8)),
        Some(t) => if is_address_text(t) {
            Ok(hex_bytes(t))
        } else {
            Err(address_error_text(t))
        },
    }
}

/// What an optional byte sequence resolves to.
pub open spec fn bytes_outcome(flag: Option<Seq<char>>) -> Result<Option<Seq<u8>>, Seq<char>> {
    match flag {
        None => Ok(None),
        Some(t) => if is_hex_text(t) {
            Ok(Some(hex_bytes(t)))
        } else {
            Err(hex_error_text(t))
        },
    }
}

/// An integer result, seen as its value or its diagnostic.
pub open spec fn u256_view(r: Result<U256, String>) -> Result<nat, Seq<char>> {
    match r {
        Ok(v) => Ok(v@),
        Err(e) => Err(e@),
    }
}

/// An address result, seen as its bytes or its diagnostic.
pub open spec fn address_view(r: Result<Address, String>) -> Result<Seq<u8>, Seq<char>> {
    match r {
        Ok(v) => Ok(v@),
        Err(e) => Err(e@),
    }
}

/// A result of optional bytes, seen as a sequence or a diagnostic.
pub open spec fn bytes_view(r: Result<Option<Vec<u8>>, String>) -> Result<
    Option<Seq<u8>>,
    Seq<char>,
> {
    match r {
        Ok(Some(v)) => Ok(Some(v@)),
        Ok(None) => Ok(None),
        Err(e) => Err(e@),
    }
}

/// The diagnostic of a refused option, or nothing.
pub open spec fn refusal<T>(param: Seq<char>, r: Result<T, Seq<char>>) -> Option<Seq<char>> {
    match r {
        Ok(_) => None,
        Err(e) => Some(invalid_text(param, e)),
    }
}

/// The first of two diagnostics that is there.
pub open spec fn first_of(a: Option<Seq<char>>, b: Option<Seq<char>>) -> Option<Seq<char>> {
    if a is Some {
        a
    } else {
        b
    }
}

/// Hands on a value, or turns the reason for a refusal into the diagnostic
/// that names the option.
pub fn arg<T>(v: Result<T, String>, param: &str) -> (r: Result<T, String>)
    ensures
        match v {
            Ok(x) => r == Ok::<T, String>(x),
            Err(e) => r is Err && r->Err_0@ == invalid_text(param@, e@),
        },
{
    match v {
        Ok(x) => Ok(x),
        Err(e) => {
            let mut msg = String::from_str("Invalid ");
            msg.append(param);
            msg.append(": ");
            msg.append(e.as_str());
            Err(msg)
        },
    }
}

impl Args {
    /// The integers on this command line are texts that the parser can take.
    pub open spec fn within_limits(&self) -> bool {
        &&& self.flag_gas is Some ==> fits_u256(self.flag_gas->Some_0@)
        &&& self.flag_gas_price is Some ==> fits_u256(self.flag_gas_price->Some_0@)
    }

    /// What the named file's text resolves to; nothing where no file was
    /// named.
    pub open spec fn code_file_outcome(&self, contents: Seq<char>) -> Result<
        Option<Seq<u8>>,
        Seq<char>,
    > {
        if self.flag_code_file is Some {
            bytes_outcome(Some(contents))
        } else {
            Ok(None)
        }
    }

    /// Whether neither integer on this command line has more than 64
    /// characters. Such a command line is within the limits.
    pub fn check_limits(&self) -> (r: bool)
        ensures
            r ==> self.within_limits(),
            r == ((self.flag_gas is Some ==> self.flag_gas->Some_0@.len() <= 64) && (
            self.flag_gas_price is Some ==> self.flag_gas_price->Some_0@.len() <= 64)),
    {
        let gas = match &self.flag_gas {
            Some(t) => within_u256_width(t.as_str()),
            None => true,
        };
        let gas_price = match &self.flag_gas_price {
            Some(t) => within_u256_width(t.as_str()),
            None => true,
        };
        gas && gas_price
    }

    /// The diagnostic that resolving this command line ends with, or
    /// nothing. The options are read in a fixed order and the first one that
    /// is refused decides; only then is it asked whether any code and an
    /// expected output were named.
    pub open spec fn first_failure(&self, contents: Seq<char>) -> Option<Seq<char>> {
        first_of(
            refusal("--from"@, address_outcome(text_of(self.flag_from))),
            first_of(
                refusal("--to"@, address_outcome(text_of(self.flag_to))),
                first_of(
                    refusal("--code-file"@, self.code_file_outcome(contents)),
                    first_of(
                        refusal("--code"@, bytes_outcome(text_of(self.flag_code))),
                        first_of(
                            refusal(
                                "--gas"@,
                                u256_outcome(text_of(self.flag_gas), u64::MAX as nat),
                            ),
                            first_of(
                                refusal(
                                    "--gas-price"@,
                                    u256_outcome(text_of(self.flag_gas_price), 0),
                                ),
                                first_of(
                                    refusal("--input"@, bytes_outcome(text_of(self.flag_input))),
                                    self.missing(),
                                ),
                            ),
                        ),
                    ),
                ),
            ),
        )
    }

    /// No option on this command line is refused.
    pub open spec fn all_accepted(&self, contents: Seq<char>) -> bool {
        &&& address_outcome(text_of(self.flag_from)) is Ok
        &&& address_outcome(text_of(self.flag_to)) is Ok
        &&& self.code_file_outcome(contents) is Ok
        &&& bytes_outcome(text_of(self.flag_code)) is Ok
        &&& u256_outcome(text_of(self.flag_gas), u64::MAX as nat) is Ok
        &&& u256_outcome(text_of(self.flag_gas_price), 0) is Ok
        &&& bytes_outcome(text_of(self.flag_input)) is Ok
    }

    /// The diagnostic for what a run cannot do without, or nothing.
    pub open spec fn missing(&self) -> Option<Seq<char>> {
        if self.flag_code is None && self.flag_code_file is None {
            Some(missing_code_text())
        } else if self.flag_expected is None {
            Some(missing_expected_text())
        } else {
            None
        }
    }

    /// The code that runs: that of the file where one was named, else the
    /// code given in line.
    pub open spec fn chosen_code(&self, contents: Seq<char>) -> Seq<u8> {
        if self.flag_code_file is Some {
            hex_bytes(contents)
        } else {
            hex_bytes(self.flag_code->Some_0@)
        }
    }

    /// Resolves the whole command line, `contents` being the text of the
    /// file that `--code-file` names (read by the caller; of no account
    /// where no file was named). Every option is read, in a fixed order,
    /// and the first refusal is the result; a command line without code or
    /// without an expected output is refused after that.
    pub fn resolve(&self, contents: &str) -> (r: Result<ResolvedCallParameters, String>)
        requires
            self.within_limits(),
        ensures
            match r {
                Err(e) => self.first_failure(contents@) == Some(e@),
                Ok(p) => {
                    &&& self.first_failure(contents@) is None
                    &&& address_outcome(text_of(self.flag_from)) == Ok::<Seq<u8>, Seq<char>>(
                        p.sender@,
                    )
                    &&& address_outcome(text_of(self.flag_to)) == Ok::<Seq<u8>, Seq<char>>(
                        p.recipient@,
                    )
                    &&& u256_outcome(text_of(self.flag_gas), u64::MAX as nat) == Ok::<
                        nat,
                        Seq<char>,
                    >(p.gas_limit@)
                    &&& u256_outcome(text_of(self.flag_gas_price), 0) == Ok::<nat, Seq<char>>(
                        p.gas_price@,
                    )
                    &&& p.code@ == self.chosen_code(contents@)
                    &&& bytes_outcome(text_of(self.flag_input)) == Ok::<
                        Option<Seq<u8>>,
                        Seq<char>,
                    >(
                        match p.input_data {
                            Some(d) => Some(d@),
                            None => None,
                        },
                    )
                    &&& text_of(self.flag_expected) == Some(p.expected_output@)
                },
            },
    {
        let sender = match arg(self.from(), "--from") {
            Ok(v) => v,
            Err(e) => return Err(e),
        };
        let recipient = match arg(self.to(), "--to") {
            Ok(v) => v,
            Err(e) => return Err(e),
        };
        let code_file = match arg(self.code_file(contents), "--code-file") {
            Ok(v) => v,
            Err(e) => return Err(e),
        };
        let code = match arg(self.code(), "--code") {
            Ok(v) => v,
            Err(e) => return Err(e),
        };
        let gas_limit = match arg(self.gas(), "--gas") {
            Ok(v) => v,
            Err(e) => return Err(e),
        };
        let gas_price = match arg(self.gas_price(), "--gas-price") {
            Ok(v) => v,
            Err(e) => return Err(e),
        };
        let input_data = match arg(self.data(), "--input") {
            Ok(v) => v,
            Err(e) => return Err(e),
        };
        let expected = match arg(self.expected(), "--expected") {
            Ok(v) => v,
            Err(e) => return Err(e),
        };
        let code = match code_file {
            Some(c) => c,
            None => match code {
                Some(c) => c,
                None => return Err(String::from_str("Either --code or --code-file is required.")),
            },
        };
        match expected {
            Some(expected_output) => Ok(
                ResolvedCallParameters {
                    sender,
                    recipient,
                    gas_limit,
                    gas_price,
                    code,
                    input_data,
                    expected_output,
                },
            ),
            None => Err(String::from_str("Expected return data --expected is required.")),
        }
    }

    /// The gas that was supplied; the largest 64-bit number where none was.
    pub fn gas(&self) -> (r: Result<U256, String>)
        requires
            self.flag_gas is Some ==> fits_u256(self.flag_gas->Some_0@),
        ensures
            u256_view(r) == u256_outcome(text_of(self.flag_gas), u64::MAX as nat),
    {
        match &self.flag_gas {
            Some(gas) => parse_u256(gas.as_str()),
            None => Ok(U256::from_u64(u64::MAX)),
        }
    }

    /// The gas price that was supplied; zero where none was.
    pub fn gas_price(&self) -> (r: Result<U256, String>)
        requires
            self.flag_gas_price is Some ==> fits_u256(self.flag_gas_price->Some_0@),
        ensures
            u256_view(r) == u256_outcome(text_of(self.flag_gas_price), 0),
    {
        match &self.flag_gas_price {
            Some(gas_price) => parse_u256(gas_price.as_str()),
            None => Ok(U256::zero()),
        }
    }

    /// The sender; the zero address where none was given.
    pub fn from(&self) -> (r: Result<Address, String>)
        ensures
            address_view(r) == address_outcome(text_of(self.flag_from)),
    {
        match &self.flag_from {
            Some(from) => parse_address(from.as_str()),
            None => Ok(Address::zero()),
        }
    }

    /// The recipient; the zero address where none was given.
    pub fn to(&self) -> (r: Result<Address, String>)
        ensures
            address_view(r) == address_outcome(text_of(self.flag_to)),
    {
        match &self.flag_to {
            Some(to) => parse_address(to.as_str()),
            None => Ok(Address::zero()),
        }
    }

    /// The code that was given in line, decoded.
    pub fn code(&self) -> (r: Result<Option<Vec<u8>>, String>)
        ensures
            bytes_view(r) == bytes_outcome(text_of(self.flag_code)),
    {
        match &self.flag_code {
            Some(code) => match from_hex(code.as_str()) {
                Ok(bytes) => Ok(Some(bytes)),
                Err(e) => Err(e),
            },
            None => Ok(None),
        }
    }

    /// The input data, decoded.
    pub fn data(&self) -> (r: Result<Option<Vec<u8>>, String>)
        ensures
            bytes_view(r) == bytes_outcome(text_of(self.flag_input)),
    {
        match &self.flag_input {
            Some(input) => match from_hex(input.as_str()) {
                Ok(bytes) => Ok(Some(bytes)),
                Err(e) => Err(e),
            },
            None => Ok(None),
        }
    }

    /// The expected output, as the text that was given: it is not decoded.
    pub fn expected(&self) -> (r: Result<Option<String>, String>)
        ensures
            r is Ok,
            text_of(r->Ok_0) == text_of(self.flag_expected),
    {
        match &self.flag_expected {
            Some(expected) => Ok(Some(expected.clone())),
            None => Ok(None),
        }
    }

    /// The code of the file that `--code-file` names, decoded from
    /// `contents`, the text of that file; nothing where no file was named.
    pub fn code_file(&self, contents: &str) -> (r: Result<Option<Vec<u8>>, String>)
        ensures
            bytes_view(r) == self.code_file_outcome(contents@),
    {
        match &self.flag_code_file {
            Some(_) => match from_hex(contents) {
                Ok(bytes) => Ok(Some(bytes)),
                Err(e) => Err(e),
            },
            None => Ok(None),
        }
    }
}

/// An option that is absent takes its default: the zero address for the
/// sender and the recipient, the largest 64-bit number for the gas, zero for
/// the gas price, and nothing for the code and the input.
pub proof fn lemma_absent_options_default()
    ensures
        address_outcome(None) == Ok::<Seq<u8>, Seq<char>>(Seq::new(20, |i: int| 0u8)),
        u256_outcome(None, u64::MAX as nat) == Ok::<nat, Seq<char>>(0xffff_ffff_ffff_ffff),
        u256_outcome(None, 0) == Ok::<nat, Seq<char>>(0),
        bytes_outcome(None) == Ok::<Option<Seq<u8>>, Seq<char>>(None),
{
}

/// A command line whose options are all accepted but which names neither
/// code nor a code file is refused with the diagnostic that asks for one of
/// them.
pub proof fn lemma_code_is_required(args: Args, contents: Seq<char>)
    requires
        args.all_accepted(contents),
        args.flag_code is None,
        args.flag_code_file is None,
    ensures
        args.first_failure(contents) == Some(missing_code_text()),
{
}

/// A command line whose options are all accepted and which names its code
/// but no expected output is refused with the diagnostic that asks for the
/// expected output.
pub proof fn lemma_expected_is_required(args: Args, contents: Seq<char>)
    requires
        args.all_accepted(contents),
        args.flag_code is Some || args.flag_code_file is Some,
        args.flag_expected is None,
    ensures
        args.first_failure(contents) == Some(missing_expected_text()),
{
}

/// A command line resolves exactly when every option is accepted and the
/// code and the expected output are named.
pub proof fn lemma_resolves_when_complete(args: Args, contents: Seq<char>)
    ensures
        args.first_failure(contents) is None <==> {
            &&& args.all_accepted(contents)
            &&& (args.flag_code is Some || args.flag_code_file is Some)
            &&& args.flag_expected is Some
        },
{
}

} // verus!
