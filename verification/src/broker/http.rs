use vstd::prelude::*;
use vstd::string::*;
use vstd::utf8::encode_utf8;

use crate::broker::chain::ApplicationRecord;
use crate::broker::types::{GenerateRequest, State, UserResponses};
use crate::broker::user::{request_task, task_requested};
use crate::broker::worker::TaskAssignment;
use crate::ids::{is_uuid_v4_text, new_task_id};
use crate::shared::Address;
use crate::signing::{
    eth_address_string, eth_address_text,
    eth_message, eth_signed_text, hex_decode, hex_decoded, keccak256_of, recover,
    recovered_account,
};
use crate::string_map::StringMap;
use crate::text::{find_colon, lemma_split_nonempty, lemma_split_step, same_text, split_colons};

verus! {

/// Why a request to generate an image was turned down.
#[derive(Clone, Copy, Debug, PartialEq, Eq, Structural)]
pub enum GenerateError {
    /// No account that an application lists signed the task.
    NotWhitelisted,
    /// The signature is not hexadecimal text.
    InvalidSignatureHex,
    /// No account can be recovered from the signature.
    SignatureNotRecovered,
}

/// Whether a request with method `method` to the path `bound_path` asks to generate an image.
pub fn is_generate_image_request(method: &str, bound_path: &str) -> (res: bool)
    ensures
        res == (method@ == "POST"@ && bound_path@ == "/generate_image"@),
{
    let post = "POST";
    let path = "/generate_image";
    proof {
        reveal_strlit("POST");
        reveal_strlit("/generate_image");
    }
    same_text(method, post) && same_text(bound_path, path)
}

/// Some application lists at least one account.
pub open spec fn any_whitelisted(apps: Map<Seq<char>, ApplicationRecord>) -> bool {
    exists|k: Seq<char>| #[trigger] apps.contains_key(k) && apps[k].whitelist@.len() > 0
}

/// Some application lists the account `account` (its 20 bytes).
pub open spec fn is_whitelisted(apps: Map<Seq<char>, ApplicationRecord>, account: Seq<u8>) -> bool {
    exists|k: Seq<char>, j: int|
        #![trigger apps[k].whitelist@[j]]
        apps.contains_key(k) && 0 <= j < apps[k].whitelist@.len() && apps[k].whitelist@[j]@
            == account
}

/// The account (its 20 bytes) that signed the task text `task` with the signature bytes
/// `signature`: its first 64 bytes are the signature proper and its 65th, less 27, the
/// recovery id.
pub open spec fn signer_of(task: Seq<char>, signature: Seq<u8>) -> Option<Seq<u8>> {
    recovered_account(
        keccak256_of(encode_utf8(eth_signed_text(task))),
        signature.take(64),
        signature[64] as int - 27,
    )
}

/// Whether `a` and `b` are the same account.
fn same_account(a: &[u8; 20], b: &[u8; 20]) -> (res: bool)
    ensures
        res == (a@ == b@),
{
    let mut i: usize = 0;
    while i < 20
        invariant
            i <= 20,
            a@.len() == 20,
            b@.len() == 20,
            forall|j: int| 0 <= j < i ==> a@[j] == b@[j],
        decreases 20 - i,
    {
        if a[i] != b[i] {
            return false;
        }
        i = i + 1;
    }
    proof {
        assert(a@ =~= b@);
    }
    true
}

/// Whether some application of `apps` lists at least one account.
pub fn has_whitelist(apps: &StringMap<ApplicationRecord>) -> (res: bool)
    requires
        apps.wf(),
    ensures
        res == any_whitelisted(apps@),
{
    proof {
        apps.lemma_entries();
    }
    let mut i: usize = 0;
    while i < apps.len()
        invariant
            apps.wf(),
            i <= apps.spec_len(),
            apps.keys().len() == apps.spec_len(),
            forall|j: int| 0 <= j < i ==> (#[trigger] apps.values()[j]).whitelist@.len() == 0,
            forall|j: int|
                0 <= j < apps.keys().len() ==> #[trigger] apps@.contains_key(apps.keys()[j])
                    && apps@[apps.keys()[j]] == apps.values()[j],
            forall|k: Seq<char>| #[trigger]
                apps@.contains_key(k) ==> exists|j: int|
                    0 <= j < apps.keys().len() && apps.keys()[j] == k,
        decreases apps.spec_len() - i,
    {
        if apps.value_at(i).whitelist.len() > 0 {
            proof {
                let k = apps.keys()[i as int];
                assert(apps@.contains_key(k));
            }
            return true;
        }
        i = i + 1;
    }
    proof {
        assert forall|k: Seq<char>| #[trigger] apps@.contains_key(k) implies apps@[k].whitelist@.len()
            == 0 by {
            let j = choose|j: int| 0 <= j < apps.keys().len() && apps.keys()[j] == k;
            assert(apps.values()[j].whitelist@.len() == 0);
        }
    }
    false
}

/// Whether some application of `apps` lists the account `account`.
pub fn whitelists(apps: &StringMap<ApplicationRecord>, account: &[u8; 20]) -> (res: bool)
    requires
        apps.wf(),
    ensures
        res == is_whitelisted(apps@, account@),
{
    proof {
        apps.lemma_entries();
    }
    let mut i: usize = 0;
    while i < apps.len()
        invariant
            apps.wf(),
            i <= apps.spec_len(),
            apps.keys().len() == apps.spec_len(),
            forall|a: int, b: int|
                0 <= a < i && 0 <= b < apps.values()[a].whitelist@.len() ==> (
                #[trigger] apps.values()[a].whitelist@[b])@ != account@,
            forall|j: int|
                0 <= j < apps.keys().len() ==> #[trigger] apps@.contains_key(apps.keys()[j])
                    && apps@[apps.keys()[j]] == apps.values()[j],
            forall|k: Seq<char>| #[trigger]
                apps@.contains_key(k) ==> exists|j: int|
                    0 <= j < apps.keys().len() && apps.keys()[j] == k,
        decreases apps.spec_len() - i,
    {
        let app = apps.value_at(i);
        let mut w: usize = 0;
        while w < app.whitelist.len()
            invariant
                w <= app.whitelist@.len(),
                *app == apps.values()[i as int],
                i < apps.keys().len(),
                apps@.contains_key(apps.keys()[i as int]),
                apps@[apps.keys()[i as int]] == apps.values()[i as int],
                forall|b: int| 0 <= b < w ==> (#[trigger] app.whitelist@[b])@ != account@,
            decreases app.whitelist@.len() - w,
        {
            if same_account(&app.whitelist[w], account) {
                proof {
                    let k = apps.keys()[i as int];
                    assert(apps@[k].whitelist@[w as int] == app.whitelist@[w as int]);
                }
                return true;
            }
            w = w + 1;
        }
        i = i + 1;
    }
    proof {
        assert forall|k: Seq<char>, j: int|
            apps@.contains_key(k) && 0 <= j < apps@[k].whitelist@.len() implies (
            #[trigger] apps@[k].whitelist@[j])@ != account@ by {
            let a = choose|a: int| 0 <= a < apps.keys().len() && apps.keys()[a] == k;
            assert(apps.values()[a].whitelist@[j] == apps@[k].whitelist@[j]);
        }
    }
    false
}

/// The account that signed the task text `task` with the hexadecimal signature `signature`
/// (65 bytes or more once decoded).
pub fn signer_account(task: &String, signature: &String) -> (res: Result<[u8; 20], GenerateError>)
    requires
        hex_decoded(encode_utf8(signature@)) matches Some(bytes) ==> bytes.len() >= 65,
    ensures
        match hex_decoded(encode_utf8(signature@)) {
            None => res == Err::<[u8; 20], GenerateError>(GenerateError::InvalidSignatureHex),
            Some(bytes) => match signer_of(task@, bytes) {
                Some(account) => res matches Ok(a) && a@ == account,
                None => res == Err::<[u8; 20], GenerateError>(GenerateError::SignatureNotRecovered),
            },
        },
{
    let hash = eth_message(task.clone());
    let bytes = match hex_decode(signature.as_str()) {
        Some(bytes) => bytes,
        None => return Err(GenerateError::InvalidSignatureHex),
    };
    let recovery_id = bytes[64] as i32 - 27;
    let proper = &bytes.as_slice()[0..64];
    proof {
        assert(proper@ =~= bytes@.take(64));
    }
    match recover(&hash, proper, recovery_id) {
        Some(account) => Ok(account),
        None => Err(GenerateError::SignatureNotRecovered),
    }
}

/// The account that signed the task of `request`, if some application of `apps` lists it.
pub fn authorized_signer(apps: &StringMap<ApplicationRecord>, request: &GenerateRequest) -> (res:
    Result<[u8; 20], GenerateError>)
    requires
        apps.wf(),
        any_whitelisted(apps@) ==> (hex_decoded(encode_utf8(request.signature@)) matches Some(
            bytes,
        ) ==> bytes.len() >= 65),
    ensures
        ({
            let decoded = hex_decoded(encode_utf8(request.signature@));
            if !any_whitelisted(apps@) {
                res == Err::<[u8; 20], GenerateError>(GenerateError::NotWhitelisted)
            } else if decoded is None {
                res == Err::<[u8; 20], GenerateError>(GenerateError::InvalidSignatureHex)
            } else if signer_of(request.task@, decoded->0) is None {
                res == Err::<[u8; 20], GenerateError>(GenerateError::SignatureNotRecovered)
            } else if !is_whitelisted(apps@, signer_of(request.task@, decoded->0)->0) {
                res == Err::<[u8; 20], GenerateError>(GenerateError::NotWhitelisted)
            } else {
                res matches Ok(account) && account@ == signer_of(request.task@, decoded->0)->0
            }
        }),
{
    if !has_whitelist(apps) {
        return Err(GenerateError::NotWhitelisted);
    }
    let account = match signer_account(&request.task, &request.signature) {
        Ok(account) => account,
        Err(e) => return Err(e),
    };
    if !whitelists(apps, &account) {
        return Err(GenerateError::NotWhitelisted);
    }
    Ok(account)
}

/// Whether the signature of `request` can be checked against `apps`: where some application
/// lists an account, a signature that decodes must hold at least 65 bytes.
pub fn signature_fits(apps: &StringMap<ApplicationRecord>, request: &GenerateRequest) -> (res: bool)
    requires
        apps.wf(),
    ensures
        res == (any_whitelisted(apps@) ==> (hex_decoded(encode_utf8(request.signature@)) matches Some(
            bytes,
        ) ==> bytes.len() >= 65)),
{
    if !has_whitelist(apps) {
        return true;
    }
    match hex_decode(request.signature.as_str()) {
        Some(bytes) => bytes.len() >= 65,
        None => true,
    }
}

/// Whether `s` has at least three parts between `:` characters, as a process id needs.
pub fn has_three_parts(s: &str) -> (res: bool)
    ensures
        res == (split_colons(s@).len() >= 3),
{
    let c1 = find_colon(s, 0);
    proof {
        lemma_split_step(s@, c1 as int);
    }
    if c1 == s.unicode_len() {
        return false;
    }
    let c2 = find_colon(s, c1 + 1);
    proof {
        let t1 = s@.skip(c1 + 1);
        lemma_split_step(t1, c2 - c1 - 1);
        lemma_split_nonempty(t1.skip(c2 - c1));
    }
    c2 < s.unicode_len()
}

/// Handles a request to generate an image that came over HTTP to the broker at `our`.
///
/// The request is taken exactly when an account that some application lists signed its task
/// (see `authorized_signer`): the bytes of a listed account equal those of the recovered
/// signer. The task then gets a fresh random id and is queued with that account (in its
/// checksum text form, as `to_string` writes it) as its user, and queued tasks go to waiting
/// workers, as `request_task` says. Where the request is taken but its process id has fewer
/// than three parts, no task can be made: the result is then nothing, and the state stays as
/// it is.
pub fn handle_generate_request(state: &mut State, our: &Address, request: &GenerateRequest) -> (res:
    Option<Result<(UserResponses, Vec<TaskAssignment>), GenerateError>>)
    requires
        old(state).wf(),
        any_whitelisted(old(state).on_chain_state.apps@) ==> (hex_decoded(
            encode_utf8(request.signature@),
        ) matches Some(bytes) ==> bytes.len() >= 65),
    ensures
        final(state).wf(),
        old(state).settled() ==> final(state).settled(),
        ({
            let apps = old(state).on_chain_state.apps@;
            let decoded = hex_decoded(encode_utf8(request.signature@));
            let accepted = decoded is Some && signer_of(request.task@, decoded->0) is Some
                && is_whitelisted(apps, signer_of(request.task@, decoded->0)->0);
            match res {
                None => {
                    &&& accepted
                    &&& split_colons(request.process_id@).len() < 3
                    &&& *final(state) == *old(state)
                },
                Some(Ok((response, sent))) => {
                    &&& accepted
                    &&& response matches UserResponses::TaskRequested { task_id, .. }
                    &&& is_uuid_v4_text(task_id@)
                    &&& task_requested(
                        *old(state),
                        *final(state),
                        *our,
                        eth_address_text(signer_of(request.task@, decoded->0)->0),
                        request.process_id@,
                        request.task@,
                        task_id@,
                        response,
                        sent@,
                    )
                },
                Some(Err(e)) => {
                    &&& !accepted
                    &&& *final(state) == *old(state)
                    &&& e == if !any_whitelisted(apps) {
                        GenerateError::NotWhitelisted
                    } else if decoded is None {
                        GenerateError::InvalidSignatureHex
                    } else if signer_of(request.task@, decoded->0) is None {
                        GenerateError::SignatureNotRecovered
                    } else {
                        GenerateError::NotWhitelisted
                    }
                },
            }
        }),
{
    let account = match authorized_signer(&state.on_chain_state.apps, request) {
        Ok(account) => account,
        Err(e) => return Some(Err(e)),
    };
    if !has_three_parts(request.process_id.as_str()) {
        return None;
    }
    let task_id = new_task_id();
    let user = eth_address_string(&account);
    let res = request_task(
        state,
        our,
        user,
        &request.process_id,
        request.task.clone(),
        task_id,
    );
    Some(Ok(res))
}

} // verus!
