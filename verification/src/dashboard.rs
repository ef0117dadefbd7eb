//! The human side of the dashboard: approving or rejecting credit proposals,
//! approving or blocking held x402 payments, and registering agents by
//! wallet signature. The application serves the HTTP routes and the live
//! event feed.

use vstd::prelude::*;
use crate::banker::{Banker, payment_approved, payment_blocked, proposal_approved, proposal_rejected, registered};
use crate::bridge::{
    address_parse, hex_bytes, hex_decode, parse_address, parse_uuid_text, raw_signature_valid, recover_signer,
    signer_of, trim, trimmed, uuid_parse, valid_parity_byte,
};
use crate::text::{strip_hex_prefix, without_hex_prefix};
use crate::types::{Agent, AppError, CreditLine, error_text};

verus! {

/// Whether `r` answers a Banker outcome `res`: its value, or its error's
/// message.
pub open spec fn answers<T>(res: Result<T, AppError>, r: Result<T, String>) -> bool {
    match res {
        Ok(v) => r matches Ok(x) && x == v,
        Err(e) => r matches Err(m) && m@ == error_text(e),
    }
}

fn answer<T>(res: Result<T, AppError>) -> (r: Result<T, String>)
    ensures
        answers(res, r),
{
    match res {
        Ok(v) => Ok(v),
        Err(e) => Err(e.message()),
    }
}

/// Approve a pending credit proposal by its id text, for the recommended
/// amount (as [`Banker::approve_proposal`] does). An id that is not a UUID is
/// refused with `Invalid proposal ID`, with nothing changed.
pub fn approve_from_dashboard(banker: &mut Banker, proposal_id: &str) -> (r: Result<CreditLine, String>)
    requires
        old(banker).wf(),
    ensures
        final(banker).wf(),
        uuid_parse(proposal_id@) is Err ==> (r matches Err(m) && m@ == "Invalid proposal ID"@)
            && *final(banker) == *old(banker),
        uuid_parse(proposal_id@) matches Ok(id) ==> exists|res: Result<CreditLine, AppError>|
            #[trigger] proposal_approved(*old(banker), *final(banker), id, None, res) && answers(res, r),
{
    match parse_uuid_text(proposal_id) {
        Err(_) => Err(String::from_str("Invalid proposal ID")),
        Ok(id) => {
            let res = banker.approve_proposal(id, None);
            let ghost g = res;
            let r = answer(res);
            assert(proposal_approved(*old(banker), *banker, id, None, g));
            r
        },
    }
}

/// Reject a pending credit proposal by its id text (as
/// [`Banker::reject_proposal`] does). An id that is not a UUID is refused
/// with `Invalid proposal ID`, with nothing changed.
pub fn reject_from_dashboard(banker: &mut Banker, proposal_id: &str) -> (r: Result<(), String>)
    requires
        old(banker).wf(),
    ensures
        final(banker).wf(),
        uuid_parse(proposal_id@) is Err ==> (r matches Err(m) && m@ == "Invalid proposal ID"@)
            && *final(banker) == *old(banker),
        uuid_parse(proposal_id@) matches Ok(id) ==> exists|res: Result<(), AppError>|
            #[trigger] proposal_rejected(*old(banker), *final(banker), id, res) && answers(res, r),
{
    match parse_uuid_text(proposal_id) {
        Err(_) => Err(String::from_str("Invalid proposal ID")),
        Ok(id) => {
            let res = banker.reject_proposal(id);
            let ghost g = res;
            let r = answer(res);
            assert(proposal_rejected(*old(banker), *banker, id, g));
            r
        },
    }
}

/// Approve a held x402 payment by its id text (as [`Banker::approve_x402`]
/// does). An id that is not a UUID is refused with `Invalid payment ID`,
/// with nothing changed.
pub fn approve_x402_from_dashboard(banker: &mut Banker, payment_id: &str) -> (r: Result<(), String>)
    requires
        old(banker).wf(),
    ensures
        final(banker).wf(),
        uuid_parse(payment_id@) is Err ==> (r matches Err(m) && m@ == "Invalid payment ID"@)
            && *final(banker) == *old(banker),
        uuid_parse(payment_id@) matches Ok(id) ==> exists|res: Result<(), AppError>|
            #[trigger] payment_approved(*old(banker), *final(banker), id, res) && answers(res, r),
{
    match parse_uuid_text(payment_id) {
        Err(_) => Err(String::from_str("Invalid payment ID")),
        Ok(id) => {
            let res = banker.approve_x402(id);
            let ghost g = res;
            let r = answer(res);
            assert(payment_approved(*old(banker), *banker, id, g));
            r
        },
    }
}

/// Block a held x402 payment by its id text, with the reason `Blocked by
/// human via dashboard` (as [`Banker::block_x402`] does). An id that is not a
/// UUID is refused with `Invalid payment ID`, with nothing changed.
pub fn block_x402_from_dashboard(banker: &mut Banker, payment_id: &str) -> (r: Result<(), String>)
    requires
        old(banker).wf(),
    ensures
        final(banker).wf(),
        uuid_parse(payment_id@) is Err ==> (r matches Err(m) && m@ == "Invalid payment ID"@)
            && *final(banker) == *old(banker),
        uuid_parse(payment_id@) matches Ok(id) ==> exists|res: Result<(), AppError>, reason: String| {
            &&& reason@ == "Blocked by human via dashboard"@
            &&& #[trigger] payment_blocked(*old(banker), *final(banker), id, reason, res)
            &&& answers(res, r)
        },
{
    match parse_uuid_text(payment_id) {
        Err(_) => Err(String::from_str("Invalid payment ID")),
        Ok(id) => {
            let reason = String::from_str("Blocked by human via dashboard");
            let ghost why = reason;
            let res = banker.block_x402(id, reason);
            let ghost g = res;
            let r = answer(res);
            assert(payment_blocked(*old(banker), *banker, id, why, g));
            r
        },
    }
}

/// The message a wallet signs to register an agent under `name`.
pub open spec fn registration_message(name: Seq<char>) -> Seq<char> {
    "Register as OpenClaw agent: "@ + name
}

/// Why a wallet registration is refused, if it is, checked in this order: a
/// name that is missing or blank, a missing address or signature, an address
/// that does not parse, a signature that is not 65 bytes of hex (with or
/// without `0x`), a malformed signature, a signature from which no signer
/// can be recovered for the registration message of the trimmed name, and a
/// signer other than the claimed address.
pub open spec fn wallet_refusal(name: Option<String>, evm_address: Option<String>, signature: Option<String>) -> Option<Seq<char>> {
    if !(name matches Some(n) && trimmed(n@).len() > 0) {
        Some("Missing or empty 'name'"@)
    } else if evm_address is None {
        Some("Missing 'evm_address'"@)
    } else if signature is None {
        Some("Missing 'signature'"@)
    } else if address_parse(evm_address->0@) is Err {
        Some("Invalid EVM address format"@)
    } else if !(hex_bytes(without_hex_prefix(signature->0@)) matches Some(b) && b.len() == 65) {
        Some("Invalid signature (expected 65-byte hex)"@)
    } else {
        let bytes = hex_bytes(without_hex_prefix(signature->0@))->0;
        let message = registration_message(trimmed(name->0@));
        if !valid_parity_byte(bytes[64]) {
            Some("Malformed ECDSA signature"@)
        } else if signer_of(bytes, message) is None {
            Some("Signature verification failed"@)
        } else if signer_of(bytes, message)->0 != address_parse(evm_address->0@)->Ok_0 {
            Some("Signature does not match claimed address"@)
        } else {
            None
        }
    }
}

fn same_bytes(a: &Vec<u8>, b: &Vec<u8>) -> (r: bool)
    ensures
        r == (a@ == b@),
{
    if a.len() != b.len() {
        return false;
    }
    let mut i: usize = 0;
    while i < a.len()
        invariant
            i <= a@.len(),
            a@.len() == b@.len(),
            forall|j: int| 0 <= j < i ==> a@[j] == b@[j],
        decreases a@.len() - i,
    {
        if a[i] != b[i] {
            return false;
        }
        i = i + 1;
    }
    assert(a@ =~= b@);
    true
}

/// Register an agent whose wallet signed the registration message (see
/// [`registration_message`]): refused as [`wallet_refusal`] says, with
/// nothing changed; otherwise registered under the trimmed name with the
/// claimed address as given (as [`Banker::register_agent`] does).
pub fn wallet_register(
    banker: &mut Banker,
    name: Option<String>,
    evm_address: Option<String>,
    signature: Option<String>,
) -> (r: Result<Agent, String>)
    requires
        old(banker).wf(),
    ensures
        final(banker).wf(),
        wallet_refusal(name, evm_address, signature) matches Some(m) ==> (r matches Err(e) && e@ == m)
            && *final(banker) == *old(banker),
        wallet_refusal(name, evm_address, signature) is None ==> (r matches Ok(agent)
            && agent.name@ == trimmed(name->0@)
            && registered(*old(banker), *final(banker), agent.name, evm_address, agent)),
{
    let trimmed_name = match &name {
        Some(n) => trim(n.as_str()),
        None => {
            return Err(String::from_str("Missing or empty 'name'"));
        },
    };
    if trimmed_name.unicode_len() == 0 {
        return Err(String::from_str("Missing or empty 'name'"));
    }
    let address = match evm_address {
        Some(a) => a,
        None => {
            return Err(String::from_str("Missing 'evm_address'"));
        },
    };
    let sig_hex = match &signature {
        Some(s) => s,
        None => {
            return Err(String::from_str("Missing 'signature'"));
        },
    };
    let claimed = match parse_address(address.as_str()) {
        Ok(a) => a,
        Err(_) => {
            return Err(String::from_str("Invalid EVM address format"));
        },
    };
    let sig_bytes = match hex_decode(strip_hex_prefix(sig_hex.as_str()).as_str()) {
        Some(b) => {
            if b.len() != 65 {
                return Err(String::from_str("Invalid signature (expected 65-byte hex)"));
            }
            b
        },
        None => {
            return Err(String::from_str("Invalid signature (expected 65-byte hex)"));
        },
    };
    if !raw_signature_valid(sig_bytes.as_slice()) {
        return Err(String::from_str("Malformed ECDSA signature"));
    }
    let mut message = String::from_str("Register as OpenClaw agent: ");
    message.append(trimmed_name.as_str());
    let recovered = match recover_signer(sig_bytes.as_slice(), message.as_str()) {
        Some(a) => a,
        None => {
            return Err(String::from_str("Signature verification failed"));
        },
    };
    if !same_bytes(&recovered, &claimed) {
        return Err(String::from_str("Signature does not match claimed address"));
    }
    let ghost evm = Some(address);
    let agent = banker.register_agent(trimmed_name, Some(address));
    assert(evm == evm_address);
    Ok(agent)
}

/// A wallet registration goes through only for the key holder: the signer
/// recovered from the signature of the registration message is the claimed
/// address.
pub proof fn lemma_registration_proves_key(name: Option<String>, evm_address: Option<String>, signature: Option<String>)
    requires
        wallet_refusal(name, evm_address, signature) is None,
    ensures
        address_parse(evm_address->0@) is Ok,
        signer_of(
            hex_bytes(without_hex_prefix(signature->0@))->0,
            registration_message(trimmed(name->0@)),
        ) == Some(address_parse(evm_address->0@)->Ok_0),
{
}

} // verus!
