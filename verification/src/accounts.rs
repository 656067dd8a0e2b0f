//! The accounts to add, given as SS58 addresses or as `0x`-prefixed 32-byte hex.

use vstd::prelude::*;
use crate::call_data::hex_decode_spec;
use crate::network::{spec_ss58_prefix, Network, ss58_prefix};
use crate::text::{has_hex_prefix, strip_hex_prefix, trim, trim_whitespace};

verus! {

/// What sp-core's SS58 decoding makes of a text: the public key and the address
/// prefix, or, where it refuses the text, the `Debug` text of its error.
pub uninterp spec fn ss58_decoding(text: Seq<char>) -> Result<(Seq<u8>, u16), Seq<char>>;

/// `AccountId32::from_ss58check_with_version` of sp-core, with the address format taken
/// as its `u16` prefix and the outside error as its `Debug` text.
///
/// The decoding (base-58, prefix bytes, checksum, allowed formats) and the error texts
/// are not written out: the outcome is named `ss58_decoding` of the text.
#[verifier::external_body]
fn decode_ss58(text: &str) -> (res: Result<([u8; 32], u16), String>)
    ensures
        match ss58_decoding(text@) {
            Ok((account, prefix)) => res matches Ok((a, p)) && a@ == account && p == prefix,
            Err(reason) => res matches Err(r) && r@ == reason,
        },
{
    match <sp_core::crypto::AccountId32 as sp_core::crypto::Ss58Codec>::from_ss58check_with_version(text) {
        Ok((account, format)) => Ok((*<sp_core::crypto::AccountId32 as AsRef<[u8; 32]>>::as_ref(&account), u16::from(format))),
        Err(e) => Err(format!("{e:?}")),
    }
}

/// Why an account input was refused.
#[derive(Clone, Copy, Debug, PartialEq, Eq, Structural)]
pub enum AccountErrorKind {
    /// It starts with `0x` and the rest is not hexadecimal.
    InvalidHex,
    /// It starts with `0x` and the rest does not denote exactly 32 bytes.
    WrongLength,
    /// It is not a valid SS58 address.
    InvalidSs58,
    /// The same account was given before.
    Duplicate,
}

/// An account input that was refused, trimmed, with the reason.
#[derive(Clone, Debug)]
pub enum AccountError {
    InvalidHex { input: String },
    WrongLength { input: String },
    InvalidSs58 { input: String, reason: String },
    Duplicate { input: String },
}

impl AccountError {
    pub open spec fn kind(&self) -> AccountErrorKind {
        match self {
            AccountError::InvalidHex { .. } => AccountErrorKind::InvalidHex,
            AccountError::WrongLength { .. } => AccountErrorKind::WrongLength,
            AccountError::InvalidSs58 { .. } => AccountErrorKind::InvalidSs58,
            AccountError::Duplicate { .. } => AccountErrorKind::Duplicate,
        }
    }

    /// Why the address was refused, for an invalid SS58 address; empty otherwise.
    pub open spec fn reason_view(&self) -> Seq<char> {
        match self {
            AccountError::InvalidSs58 { reason, .. } => reason@,
            _ => Seq::empty(),
        }
    }

    pub open spec fn input_view(&self) -> Seq<char> {
        match self {
            AccountError::InvalidHex { input } => input@,
            AccountError::WrongLength { input } => input@,
            AccountError::InvalidSs58 { input, .. } => input@,
            AccountError::Duplicate { input } => input@,
        }
    }
}

/// An SS58 address whose prefix is not the one of the target network; its public key is
/// used all the same.
#[derive(Clone, Debug)]
pub struct PrefixWarning {
    pub input: String,
    pub prefix: u16,
}

/// The outcome of reading the account inputs in order: the accounts read, the warnings
/// met, and the first refusal, after which nothing more is read.
#[derive(Clone, Debug)]
pub struct ParsedAccounts {
    pub accounts: Vec<[u8; 32]>,
    pub warnings: Vec<PrefixWarning>,
    pub failure: Option<AccountError>,
}

/// The mathematical form of `ParsedAccounts`.
pub struct AccountsState {
    pub accounts: Seq<Seq<u8>>,
    pub warnings: Seq<(Seq<char>, u16)>,
    /// The reason, the refused input, and the text of the reason for an invalid SS58
    /// address (empty for the other reasons).
    pub failure: Option<(AccountErrorKind, Seq<char>, Seq<char>)>,
}

impl View for ParsedAccounts {
    type V = AccountsState;

    open spec fn view(&self) -> AccountsState {
        AccountsState {
            accounts: self.accounts@.map_values(|a: [u8; 32]| a@),
            warnings: self.warnings@.map_values(|w: PrefixWarning| (w.input@, w.prefix)),
            failure: match self.failure {
                Some(e) => Some((e.kind(), e.input_view(), e.reason_view())),
                None => None,
            },
        }
    }
}

/// What one trimmed input denotes: its public key, with the SS58 prefix when it was
/// given as an address; or why it is refused, with the text of the reason for an
/// invalid SS58 address.
pub open spec fn spec_decode_account(text: Seq<char>) -> Result<(Seq<u8>, Option<u16>), (AccountErrorKind, Seq<char>)> {
    if has_hex_prefix(text) {
        match hex_decode_spec(text.skip(2)) {
            None => Err((AccountErrorKind::InvalidHex, Seq::empty())),
            Some(bytes) => if bytes.len() == 32 {
                Ok((bytes, None))
            } else {
                Err((AccountErrorKind::WrongLength, Seq::empty()))
            },
        }
    } else {
        match ss58_decoding(text) {
            Err(reason) => Err((AccountErrorKind::InvalidSs58, reason)),
            Ok((account, prefix)) => Ok((account, Some(prefix))),
        }
    }
}

/// The state after recording the account that a trimmed input denotes: a warning is
/// recorded when its SS58 prefix is not the expected one; then a repeated account is
/// refused, and a new one appended. Nothing changes once an input has been refused.
pub open spec fn spec_record_account(
    prev: AccountsState,
    text: Seq<char>,
    account: Seq<u8>,
    prefix: Option<u16>,
    expected_prefix: u16,
) -> AccountsState {
    if prev.failure is Some {
        prev
    } else {
        let warnings = match prefix {
            Some(p) => if p != expected_prefix {
                prev.warnings.push((text, p))
            } else {
                prev.warnings
            },
            None => prev.warnings,
        };
        if prev.accounts.contains(account) {
            AccountsState {
                accounts: prev.accounts,
                warnings,
                failure: Some((AccountErrorKind::Duplicate, text, Seq::empty())),
            }
        } else {
            AccountsState { accounts: prev.accounts.push(account), warnings, failure: None }
        }
    }
}

/// The state after reading one more input.
pub open spec fn spec_account_step(prev: AccountsState, input: Seq<char>, expected_prefix: u16) -> AccountsState {
    if prev.failure is Some {
        prev
    } else {
        let text = trim(input);
        match spec_decode_account(text) {
            Err((kind, reason)) => AccountsState { failure: Some((kind, text, reason)), ..prev },
            Ok((account, prefix)) => spec_record_account(prev, text, account, prefix, expected_prefix),
        }
    }
}

/// The state after reading the inputs in order.
pub open spec fn spec_parse_accounts(inputs: Seq<Seq<char>>, expected_prefix: u16) -> AccountsState
    decreases inputs.len(),
{
    if inputs.len() == 0 {
        AccountsState { accounts: Seq::empty(), warnings: Seq::empty(), failure: None }
    } else {
        spec_account_step(
            spec_parse_accounts(inputs.drop_last(), expected_prefix),
            inputs.last(),
            expected_prefix,
        )
    }
}

/// Whether two accounts are the same public key.
fn same_account(a: &[u8; 32], b: &[u8; 32]) -> (same: bool)
    ensures
        same == (a@ == b@),
{
    for i in 0..32
        invariant
            forall|j: int| 0 <= j < i ==> a@[j] == b@[j],
    {
        if a[i] != b[i] {
            return false;
        }
    }
    assert(a@ =~= b@);
    true
}

/// Whether the account is among those read so far.
pub(crate) fn contains_account(accounts: &[[u8; 32]], account: &[u8; 32]) -> (found: bool)
    ensures
        found == accounts@.map_values(|a: [u8; 32]| a@).contains(account@),
{
    let ghost views = accounts@.map_values(|a: [u8; 32]| a@);
    for i in 0..accounts.len()
        invariant
            views == accounts@.map_values(|a: [u8; 32]| a@),
            forall|j: int| 0 <= j < i ==> views[j] != account@,
    {
        if same_account(&accounts[i], account) {
            assert(views[i as int] == account@);
            return true;
        }
    }
    false
}

/// The 32 bytes of a vector of that length, as an array.
fn to_account(bytes: &Vec<u8>) -> (account: [u8; 32])
    requires
        bytes.len() == 32,
    ensures
        account@ == bytes@,
{
    let mut account = [0u8; 32];
    for i in 0..32
        invariant
            bytes.len() == 32,
            forall|j: int| 0 <= j < i ==> account@[j] == bytes@[j],
    {
        account[i] = bytes[i];
    }
    assert(account@ =~= bytes@);
    account
}

/// Reads one trimmed input as an account: `0x` followed by the hex of 32 bytes, or an
/// SS58 address, whose prefix is returned too.
pub fn decode_account(text: &str) -> (res: Result<([u8; 32], Option<u16>), AccountError>)
    ensures
        match spec_decode_account(text@) {
            Ok((account, prefix)) => res matches Ok((a, p)) && a@ == account && p == prefix,
            Err((kind, reason)) => res matches Err(e) && e.kind() == kind && e.input_view() == text@
                && e.reason_view() == reason,
        },
        has_hex_prefix(text@) ==> (res is Ok <==> (hex_decode_spec(text@.skip(2)) matches Some(
            b,
        ) && b.len() == 32)),
        has_hex_prefix(text@) ==> (res matches Ok((a, p)) ==> Some(a@) == hex_decode_spec(
            text@.skip(2),
        ) && p is None),
{
    proof {
        if has_hex_prefix(text@) {
            lemma_hex_account_is_exactly_32_bytes(text@);
        }
    }
    match strip_hex_prefix(text) {
        Some(digits) => {
            match crate::call_data::decode_hex_text(digits) {
                None => Err(AccountError::InvalidHex { input: text.to_owned() }),
                Some(bytes) => {
                    if bytes.len() == 32 {
                        Ok((to_account(&bytes), None))
                    } else {
                        Err(AccountError::WrongLength { input: text.to_owned() })
                    }
                },
            }
        },
        None => {
            match decode_ss58(text) {
                Ok((account, prefix)) => Ok((account, Some(prefix))),
                Err(reason) => Err(AccountError::InvalidSs58 { input: text.to_owned(), reason }),
            }
        },
    }
}

proof fn lemma_failure_persists(inputs: Seq<Seq<char>>, expected_prefix: u16, k: int)
    requires
        0 <= k <= inputs.len(),
        spec_parse_accounts(inputs.take(k), expected_prefix).failure is Some,
    ensures
        spec_parse_accounts(inputs, expected_prefix) == spec_parse_accounts(inputs.take(k), expected_prefix),
    decreases inputs.len() - k,
{
    if k < inputs.len() {
        assert(inputs.take(k + 1).drop_last() =~= inputs.take(k));
        lemma_failure_persists(inputs, expected_prefix, k + 1);
    } else {
        assert(inputs.take(k) =~= inputs);
    }
}

/// Records the account that a trimmed input denotes, with the SS58 prefix it was given
/// with, if any: a warning is recorded when the prefix is not the expected one; then an
/// account recorded before is refused as a duplicate, and a new one is appended. Once
/// an input has been refused, nothing changes.
pub fn record_account(
    parsed: &mut ParsedAccounts,
    text: &str,
    account: [u8; 32],
    prefix: Option<u16>,
    expected_prefix: u16,
)
    ensures
        final(parsed)@ == spec_record_account(old(parsed)@, text@, account@, prefix, expected_prefix),
{
    if parsed.failure.is_some() {
        return;
    }
    let ghost prev = parsed@;
    match prefix {
        Some(p) => {
            if p != expected_prefix {
                parsed.warnings.push(PrefixWarning { input: text.to_owned(), prefix: p });
                assert(parsed@.warnings =~= prev.warnings.push((text@, p)));
            }
        },
        None => {},
    }
    if contains_account(&parsed.accounts, &account) {
        parsed.failure = Some(AccountError::Duplicate { input: text.to_owned() });
        return;
    }
    parsed.accounts.push(account);
    assert(parsed@.accounts =~= prev.accounts.push(account@));
}

/// Parses the user-provided accounts (SS58 addresses or `0x`-prefixed hex) into raw
/// public keys, in order. Reading stops at the first input that is refused: one that
/// is not valid, or that repeats an account given before. An SS58 address whose prefix
/// is not the network's yields a warning, and its public key is used all the same.
pub fn parse_accounts(inputs: &[String], network: &Network) -> (res: ParsedAccounts)
    ensures
        res@ == spec_parse_accounts(
            inputs@.map_values(|s: String| s@),
            spec_ss58_prefix(*network),
        ),
{
    let expected_prefix = ss58_prefix(network);
    let ghost texts = inputs@.map_values(|s: String| s@);
    let mut res = ParsedAccounts { accounts: Vec::new(), warnings: Vec::new(), failure: None };
    assert(texts.take(0) =~= Seq::<Seq<char>>::empty());
    assert(res@.accounts =~= Seq::<Seq<u8>>::empty());
    assert(res@.warnings =~= Seq::<(Seq<char>, u16)>::empty());
    for i in 0..inputs.len()
        invariant
            texts == inputs@.map_values(|s: String| s@),
            expected_prefix == spec_ss58_prefix(*network),
            res@ == spec_parse_accounts(texts.take(i as int), expected_prefix),
            res.failure is None,
    {
        assert(texts.take(i + 1).drop_last() =~= texts.take(i as int));
        assert(texts.take(i + 1).last() == inputs@[i as int]@);
        let text = trim_whitespace(inputs[i].as_str());
        match decode_account(text) {
            Err(e) => {
                res.failure = Some(e);
                proof {
                    lemma_failure_persists(texts, expected_prefix, i + 1);
                }
                return res;
            },
            Ok((account, prefix)) => {
                record_account(&mut res, text, account, prefix, expected_prefix);
                if res.failure.is_some() {
                    proof {
                        lemma_failure_persists(texts, expected_prefix, i + 1);
                    }
                    return res;
                }
            },
        }
    }
    assert(texts.take(inputs.len() as int) =~= texts);
    res
}

/// An input that starts with `0x` is accepted exactly when the rest is hexadecimal for
/// exactly 32 bytes, and the account is then those bytes, with no SS58 prefix. Other
/// hex is refused: as invalid hex when it does not decode, and as of the wrong length
/// when it decodes to any other number of bytes.
pub proof fn lemma_hex_account_is_exactly_32_bytes(text: Seq<char>)
    requires
        has_hex_prefix(text),
    ensures
        spec_decode_account(text) is Ok <==> (hex_decode_spec(text.skip(2)) matches Some(b)
            && b.len() == 32),
        spec_decode_account(text) matches Ok((account, prefix)) ==> hex_decode_spec(text.skip(2))
            == Some(account) && account.len() == 32 && prefix is None,
        hex_decode_spec(text.skip(2)) is None ==> (spec_decode_account(text) matches Err(
            (kind, _),
        ) && kind == AccountErrorKind::InvalidHex),
        (hex_decode_spec(text.skip(2)) matches Some(b) && b.len() != 32) ==> (spec_decode_account(
            text,
        ) matches Err((kind, _)) && kind == AccountErrorKind::WrongLength),
{
}

/// Every account read from an input that starts with `0x` is exactly the 32 bytes
/// that the rest of the trimmed input denotes in hex.
pub proof fn lemma_hex_accounts_are_decoded_exactly(inputs: Seq<Seq<char>>, expected_prefix: u16)
    ensures
        ({
            let st = spec_parse_accounts(inputs, expected_prefix);
            forall|i: int|
                0 <= i < st.accounts.len() && has_hex_prefix(#[trigger] trim(inputs[i]))
                    ==> hex_decode_spec(trim(inputs[i]).skip(2)) == Some(st.accounts[i])
                    && st.accounts[i].len() == 32
        }),
{
    lemma_parse_accounts_reads_in_order(inputs, expected_prefix);
    let st = spec_parse_accounts(inputs, expected_prefix);
    assert forall|i: int|
        0 <= i < st.accounts.len() && has_hex_prefix(#[trigger] trim(inputs[i])) implies
            hex_decode_spec(trim(inputs[i]).skip(2)) == Some(st.accounts[i])
            && st.accounts[i].len() == 32 by {
        lemma_hex_account_is_exactly_32_bytes(trim(inputs[i]));
        assert(spec_decode_account(trim(inputs[i])) matches Ok((account, _)) && account
            == st.accounts[i]);
    }
}

/// The accounts read are distinct, and each is what the input at its position denotes;
/// reading stops exactly at the first refused input, and every input is read when
/// none is refused.
pub proof fn lemma_parse_accounts_reads_in_order(inputs: Seq<Seq<char>>, expected_prefix: u16)
    ensures
        ({
            let st = spec_parse_accounts(inputs, expected_prefix);
            &&& st.accounts.no_duplicates()
            &&& st.accounts.len() <= inputs.len()
            &&& forall|i: int|
                0 <= i < st.accounts.len() ==> ((#[trigger] spec_decode_account(trim(inputs[i])))
                    matches Ok((account, _)) && account == st.accounts[i])
            &&& (st.failure is None <==> st.accounts.len() == inputs.len())
            &&& st.failure matches Some((kind, text, reason)) ==> {
                &&& text == trim(inputs[st.accounts.len() as int])
                &&& match spec_decode_account(text) {
                    Ok((account, _)) => kind == AccountErrorKind::Duplicate
                        && st.accounts.contains(account) && reason.len() == 0,
                    Err((k, r)) => kind == k && reason == r,
                }
            }
        }),
    decreases inputs.len(),
{
    if inputs.len() > 0 {
        let prev_inputs = inputs.drop_last();
        lemma_parse_accounts_reads_in_order(prev_inputs, expected_prefix);
        let prev = spec_parse_accounts(prev_inputs, expected_prefix);
        let st = spec_parse_accounts(inputs, expected_prefix);
        assert forall|i: int| 0 <= i < prev_inputs.len() implies inputs[i] == prev_inputs[i] by {}
        if prev.failure is None {
            let text = trim(inputs.last());
            if let Ok((account, _)) = spec_decode_account(text) {
                if !prev.accounts.contains(account) {
                    assert(st.accounts == prev.accounts.push(account));
                    assert forall|i: int, j: int|
                        0 <= i < st.accounts.len() && 0 <= j < st.accounts.len() && i != j
                        implies st.accounts[i] != st.accounts[j] by {
                        if i == prev.accounts.len() {
                            assert(prev.accounts[j] == st.accounts[j]);
                        } else if j == prev.accounts.len() {
                            assert(prev.accounts[i] == st.accounts[i]);
                        }
                    }
                }
            }
        }
    }
}

} // verus!
