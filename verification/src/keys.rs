//! Putting the pre-shared key and its identity into the modem's key store.
//!
//! The modem is driven by AT commands. This module writes the commands and
//! judges the replies; sending a command and reading the reply is left to the
//! owner of the modem.

use vstd::prelude::*;
use vstd::string::*;

verus! {

/// The reply code with which the modem says that there is no such key.
pub const CME_NOT_FOUND: i32 = 513;

/// The kinds of credential that the key store holds.
#[derive(Debug, Clone, Copy, PartialEq, Eq, Structural)]
pub enum Type {
    RootCert,
    ClientCert,
    ClientPrivateKey,
    Psk,
    PskId,
}

/// The number by which the key store knows a kind of credential.
pub open spec fn type_code(ty: Type) -> u32 {
    match ty {
        Type::RootCert => 0,
        Type::ClientCert => 1,
        Type::ClientPrivateKey => 2,
        Type::Psk => 3,
        Type::PskId => 4,
    }
}

impl Type {
    /// The number by which the key store knows this kind of credential.
    pub fn code(self) -> (code: u32)
        ensures
            code == type_code(self),
    {
        match self {
            Type::RootCert => 0,
            Type::ClientCert => 1,
            Type::ClientPrivateKey => 2,
            Type::Psk => 3,
            Type::PskId => 4,
        }
    }
}

/// What the modem said to a command.
#[derive(Debug, Clone, Copy, PartialEq, Eq, Structural)]
pub enum ModemReply {
    /// The modem said `OK`.
    Success,
    /// An extended error report with its code.
    CmeError(i32),
    /// Any other failure, of the modem or of the way to it.
    Failed,
}

/// One command of a script, with the leave to find nothing.
#[derive(Debug, Clone, PartialEq, Eq)]
pub struct KeyCommand {
    pub command: String,
    /// Whether the reply that there is no such key counts as success.
    pub may_be_missing: bool,
}

/// `String::push` appends one character.
pub assume_specification[ String::push ](text: &mut String, ch: char)
    ensures
        final(text)@ == old(text)@.push(ch),
;

/// The lower-case hexadecimal digit for a value below sixteen.
pub open spec fn hex_digit(value: int) -> char {
    if value < 10 {
        ('0' as u8 + value) as char
    } else {
        ('a' as u8 + value - 10) as char
    }
}

/// The bytes written as lower-case hexadecimal digits, two for each byte, the
/// high half first.
pub open spec fn hex_of(bytes: Seq<u8>) -> Seq<char>
    decreases bytes.len(),
{
    if bytes.len() == 0 {
        Seq::empty()
    } else {
        hex_of(bytes.drop_last()).push(hex_digit(bytes.last() as int / 16)).push(
            hex_digit(bytes.last() as int % 16),
        )
    }
}

/// The number written in decimal digits, without sign and without leading
/// zeros.
pub open spec fn decimal_of(number: nat) -> Seq<char>
    decreases number,
{
    if number < 10 {
        seq![('0' as u8 + number) as char]
    } else {
        decimal_of(number / 10).push(('0' as u8 + number % 10) as char)
    }
}

fn hex_from_digit(value: u8) -> (digit: char)
    requires
        value < 16,
    ensures
        digit == hex_digit(value as int),
{
    if value < 10 {
        ('0' as u8 + value) as char
    } else {
        ('a' as u8 + value - 10) as char
    }
}

/// Writes a key as the modem wants it: each byte as two lower-case hexadecimal
/// digits.
pub fn encode_psk_as_hex(psk: &[u8]) -> (hex: String)
    ensures
        hex@ == hex_of(psk@),
        hex@.len() == 2 * psk@.len(),
{
    let mut hex = String::new();
    let mut i: usize = 0;
    while i < psk.len()
        invariant
            i <= psk.len(),
            hex@ == hex_of(psk@.subrange(0, i as int)),
            hex@.len() == 2 * i,
        decreases psk.len() - i,
    {
        let byte = psk[i];
        hex.push(hex_from_digit(byte / 16));
        hex.push(hex_from_digit(byte % 16));
        i += 1;
        assert(psk@.subrange(0, i as int).drop_last() =~= psk@.subrange(0, i - 1));
    }
    assert(psk@.subrange(0, i as int) =~= psk@);
    hex
}

fn push_decimal(text: &mut String, number: u32)
    ensures
        final(text)@ == old(text)@ + decimal_of(number as nat),
    decreases number,
{
    if number >= 10 {
        push_decimal(text, number / 10);
    }
    text.push(('0' as u8 + (number % 10) as u8) as char);
    assert(text@ =~= old(text)@ + decimal_of(number as nat));
}

/// The command that removes the credential of kind `ty` under `tag`.
pub open spec fn delete_command(tag: u32, ty: Type) -> Seq<char> {
    "AT%CMNG=3,"@ + decimal_of(tag as nat) + ","@ + decimal_of(type_code(ty) as nat) + "\r\n"@
}

/// The command that stores `data` as the credential of kind `ty` under `tag`.
/// `data` stands between quotes as it is.
pub open spec fn write_command(tag: u32, ty: Type, data: Seq<char>) -> Seq<char> {
    "AT%CMNG=0,"@ + decimal_of(tag as nat) + ","@ + decimal_of(type_code(ty) as nat) + ",\""@
        + data + "\"\r\n"@
}

/// The command that asks the modem to report errors with their codes.
pub open spec fn cme_command() -> Seq<char> {
    "AT+CMEE=1\r\n"@
}

/// A command between the two requests for error codes that go with each
/// command to the key store.
pub open spec fn with_cme_script(command: Seq<char>, may_be_missing: bool) -> Seq<
    (Seq<char>, bool),
> {
    seq![(cme_command(), false), (command, may_be_missing), (cme_command(), false)]
}

/// The script that installs a key and its identity under `tag`: what is there
/// is removed, the identity first, then the identity is written and then the
/// key, in hexadecimal digits.
pub open spec fn install_script(tag: u32, psk_id: Seq<char>, psk: Seq<u8>) -> Seq<
    (Seq<char>, bool),
> {
    with_cme_script(delete_command(tag, Type::PskId), true) + with_cme_script(
        delete_command(tag, Type::Psk),
        true,
    ) + with_cme_script(write_command(tag, Type::PskId, psk_id), false) + with_cme_script(
        write_command(tag, Type::Psk, hex_of(psk)),
        false,
    )
}

/// A script as a mathematical value: each command with its leave to find
/// nothing.
pub open spec fn script_view(script: Seq<KeyCommand>) -> Seq<(Seq<char>, bool)> {
    script.map_values(|step: KeyCommand| (step.command@, step.may_be_missing))
}

/// Writes the command that removes the credential of kind `ty` under `tag`.
pub fn key_delete(tag: u32, ty: Type) -> (command: String)
    ensures
        command@ == delete_command(tag, ty),
{
    let mut command = String::from_str("AT%CMNG=3,");
    push_decimal(&mut command, tag);
    command.append(",");
    push_decimal(&mut command, ty.code());
    command.append("\r\n");
    command
}

/// Writes the command that stores `data` as the credential of kind `ty` under
/// `tag`.
pub fn key_write(tag: u32, ty: Type, data: &str) -> (command: String)
    ensures
        command@ == write_command(tag, ty, data@),
{
    let mut command = String::from_str("AT%CMNG=0,");
    push_decimal(&mut command, tag);
    command.append(",");
    push_decimal(&mut command, ty.code());
    command.append(",\"");
    command.append(data);
    command.append("\"\r\n");
    command
}

/// Puts `command` between the two requests for error codes and appends the
/// three to `script`.
pub fn with_cme(script: &mut Vec<KeyCommand>, command: String, may_be_missing: bool)
    ensures
        script_view(final(script)@) == script_view(old(script)@) + with_cme_script(
            command@,
            may_be_missing,
        ),
{
    script.push(KeyCommand { command: String::from_str("AT+CMEE=1\r\n"), may_be_missing: false });
    script.push(KeyCommand { command, may_be_missing });
    script.push(KeyCommand { command: String::from_str("AT+CMEE=1\r\n"), may_be_missing: false });
    assert(script_view(script@) =~= script_view(old(script)@) + with_cme_script(
        command@,
        may_be_missing,
    ));
}

/// Writes the script that installs a pre-shared key and its identity under
/// `security_tag`. The commands are to be sent in order, each after the reply
/// to the one before was accepted (see [`reply_accepted`]).
///
/// Neither the identity nor the key may be empty.
pub fn install_psk_and_psk_id(security_tag: u32, psk_id: &str, psk: &[u8]) -> (script: Vec<
    KeyCommand,
>)
    requires
        psk_id@.len() > 0,
        psk@.len() > 0,
    ensures
        script_view(script@) == install_script(security_tag, psk_id@, psk@),
        script@.len() == 12,
{
    let mut script: Vec<KeyCommand> = Vec::new();
    assert(script_view(script@) =~= Seq::empty());
    with_cme(&mut script, key_delete(security_tag, Type::PskId), true);
    with_cme(&mut script, key_delete(security_tag, Type::Psk), true);
    with_cme(&mut script, key_write(security_tag, Type::PskId, psk_id), false);
    let hex = encode_psk_as_hex(psk);
    with_cme(&mut script, key_write(security_tag, Type::Psk, hex.as_str()), false);
    assert(script_view(script@) =~= install_script(security_tag, psk_id@, psk@));
    assert(script_view(script@).len() == 12);
    script
}

/// Whether `reply` lets the script go on after `step`: the modem said `OK`, or
/// it said that there is no such key and the step has leave to find nothing.
pub open spec fn accepts(may_be_missing: bool, reply: ModemReply) -> bool {
    match reply {
        ModemReply::Success => true,
        ModemReply::CmeError(code) => may_be_missing && code == CME_NOT_FOUND,
        ModemReply::Failed => false,
    }
}

/// Judges the modem's reply to one command of a script.
pub fn reply_accepted(step: &KeyCommand, reply: ModemReply) -> (accepted: bool)
    ensures
        accepted == accepts(step.may_be_missing, reply),
{
    match reply {
        ModemReply::Success => true,
        ModemReply::CmeError(code) => step.may_be_missing && code == CME_NOT_FOUND,
        ModemReply::Failed => false,
    }
}

} // verus!
