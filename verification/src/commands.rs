//! What the subcommands decide between their calls to the network: the
//! summary of a contract invocation, which events concern a payer, and
//! whether a local WASM hash matches the deployed one.
use vstd::prelude::*;

use crate::error::{contains_text, CliError, CliErrorModel};

verus! {

/// The human-readable line reported after invoking `function`.
pub open spec fn invocation_summary_spec(function: Seq<char>, status: Seq<char>, dry_run: bool) -> Seq<char> {
    (if dry_run { "Simulated "@ } else { "Submitted "@ }) + function + ". Status: "@ + status
}

/// The line reported after invoking `function`: "Simulated ..." for a dry run,
/// "Submitted ..." otherwise, followed by the status the RPC answered.
pub fn invocation_summary(function: &str, status: &str, dry_run: bool) -> (line: String)
    ensures
        line@ == invocation_summary_spec(function@, status@, dry_run),
{
    let mut line = if dry_run {
        String::from_str("Simulated ")
    } else {
        String::from_str("Submitted ")
    };
    line.append(function);
    line.append(". Status: ");
    line.append(status);
    line
}

/// The context added to a failed contract invocation.
pub open spec fn invocation_failure_spec(function: Seq<char>, contract_id: Seq<char>) -> Seq<char> {
    "operation '"@ + function + "' failed for contract "@ + contract_id
}

/// The context reported when invoking `function` on `contract_id` fails:
/// "operation '<function>' failed for contract <contract_id>".
pub fn invocation_failure_context(function: &str, contract_id: &str) -> (line: String)
    ensures
        line@ == invocation_failure_spec(function@, contract_id@),
{
    let mut line = String::from_str("operation '");
    line.append(function);
    line.append("' failed for contract ");
    line.append(contract_id);
    line
}

/// The subcommands that invoke a state-changing contract function.
#[derive(Clone, Copy, Debug, PartialEq, Eq, Structural)]
pub enum Operation {
    Init,
    Pause,
    Unpause,
    Create,
    SubmitWork,
    TransferFreelancer,
    Approve,
    Cancel,
    Expire,
}

/// What a subcommand does after its confirmation prompt.
#[derive(Clone, Copy, Debug, PartialEq, Eq, Structural)]
pub enum Step {
    /// Invoke the contract function.
    Invoke,
    /// Stop without invoking ("Aborted.").
    Abort,
}

/// The contract function that an operation invokes.
pub open spec fn contract_function_spec(op: Operation) -> Seq<char> {
    match op {
        Operation::Init => "init"@,
        Operation::Pause => "pause"@,
        Operation::Unpause => "unpause"@,
        Operation::Create => "create"@,
        Operation::SubmitWork => "submit_work"@,
        Operation::TransferFreelancer => "transfer_freelancer"@,
        Operation::Approve => "approve"@,
        Operation::Cancel => "cancel"@,
        Operation::Expire => "expire"@,
    }
}

/// The names of the arguments an operation passes, in order.
pub open spec fn argument_keys_spec(op: Operation) -> Seq<Seq<char>> {
    match op {
        Operation::Init => seq!["admin"@, "fee_bps"@, "fee_collector"@],
        Operation::Create => seq!["payer"@, "freelancer"@, "token"@, "amount"@, "milestone"@, "deadline"@],
        Operation::TransferFreelancer => seq!["new_freelancer"@],
        _ => Seq::empty(),
    }
}

/// The question asked before an operation, for those that move funds on the payer's say-so.
pub open spec fn confirmation_prompt_spec(op: Operation) -> Option<Seq<char>> {
    match op {
        Operation::Approve => Some("Approve milestone and release payment to freelancer?"@),
        Operation::Cancel => Some("Cancel escrow and refund payer?"@),
        _ => None,
    }
}

/// The environment variable that holds the secret key signing an operation.
pub open spec fn signing_secret_spec(op: Operation) -> Seq<char> {
    match op {
        Operation::Init | Operation::Pause | Operation::Unpause => "ADMIN_SECRET"@,
        Operation::SubmitWork | Operation::TransferFreelancer => "FREELANCER_SECRET"@,
        _ => "PAYER_SECRET"@,
    }
}

/// The argument that carries the address derived from the signing secret, for
/// the operations that pass it.
pub open spec fn signer_argument_spec(op: Operation) -> Option<Seq<char>> {
    match op {
        Operation::Init => Some("admin"@),
        Operation::Create => Some("payer"@),
        _ => None,
    }
}

impl Operation {
    /// The contract function that the operation invokes.
    pub fn contract_function(&self) -> (f: &'static str)
        ensures
            f@ == contract_function_spec(*self),
    {
        match self {
            Operation::Init => "init",
            Operation::Pause => "pause",
            Operation::Unpause => "unpause",
            Operation::Create => "create",
            Operation::SubmitWork => "submit_work",
            Operation::TransferFreelancer => "transfer_freelancer",
            Operation::Approve => "approve",
            Operation::Cancel => "cancel",
            Operation::Expire => "expire",
        }
    }

    /// The names of the arguments that the operation passes, in order.
    pub fn argument_keys(&self) -> (keys: Vec<&'static str>)
        ensures
            keys@.len() == argument_keys_spec(*self).len(),
            forall|i: int| 0 <= i < keys@.len() ==> #[trigger] keys@[i]@ == argument_keys_spec(*self)[i],
    {
        let mut keys: Vec<&'static str> = Vec::new();
        match self {
            Operation::Init => {
                keys.push("admin");
                keys.push("fee_bps");
                keys.push("fee_collector");
            },
            Operation::Create => {
                keys.push("payer");
                keys.push("freelancer");
                keys.push("token");
                keys.push("amount");
                keys.push("milestone");
                keys.push("deadline");
            },
            Operation::TransferFreelancer => {
                keys.push("new_freelancer");
            },
            _ => {},
        }
        keys
    }

    /// The confirmation question asked before the operation, if any.
    pub fn confirmation_prompt(&self) -> (q: Option<&'static str>)
        ensures
            match q {
                Some(t) => confirmation_prompt_spec(*self) == Some(t@),
                None => confirmation_prompt_spec(*self) is None,
            },
    {
        match self {
            Operation::Approve => Some("Approve milestone and release payment to freelancer?"),
            Operation::Cancel => Some("Cancel escrow and refund payer?"),
            _ => None,
        }
    }

    /// The environment variable holding the secret key that signs the operation.
    pub fn signing_secret(&self) -> (name: &'static str)
        ensures
            name@ == signing_secret_spec(*self),
    {
        match self {
            Operation::Init | Operation::Pause | Operation::Unpause => "ADMIN_SECRET",
            Operation::SubmitWork | Operation::TransferFreelancer => "FREELANCER_SECRET",
            _ => "PAYER_SECRET",
        }
    }

    /// The argument that carries the signer's address, for the operations that pass it.
    pub fn signer_argument(&self) -> (key: Option<&'static str>)
        ensures
            match key {
                Some(k) => signer_argument_spec(*self) == Some(k@),
                None => signer_argument_spec(*self) is None,
            },
    {
        match self {
            Operation::Init => Some("admin"),
            Operation::Create => Some("payer"),
            _ => None,
        }
    }
}

/// What follows the confirmation prompt of `op`, answered `confirmed`: an
/// operation without a prompt, or one confirmed, is invoked; one refused is aborted.
pub fn step_after_confirmation(op: Operation, confirmed: bool) -> (step: Step)
    ensures
        step == (if confirmation_prompt_spec(op) is Some && !confirmed {
            Step::Abort
        } else {
            Step::Invoke
        }),
{
    match op.confirmation_prompt() {
        Some(_) => if confirmed {
            Step::Invoke
        } else {
            Step::Abort
        },
        None => Step::Invoke,
    }
}

/// The error for a signing secret from which no address can be derived: an
/// `InvalidStellarSecretKey` whose context names the secret, then the cause.
pub fn secret_key_error(secret_name: &str, cause: &str) -> (e: CliError)
    ensures
        e@ == CliErrorModel::InvalidStellarSecretKey(secret_name@ + ": "@ + cause@),
{
    let mut context = String::from_str(secret_name);
    context.append(": ");
    context.append(cause);
    CliError::InvalidStellarSecretKey(context)
}

/// The characters of a text, in order.
fn chars_of(s: &str) -> (cs: Vec<char>)
    ensures
        cs@ == s@,
{
    let n = s.unicode_len();
    let mut cs: Vec<char> = Vec::new();
    let mut i: usize = 0;
    while i < n
        invariant
            i <= n,
            n == s@.len(),
            cs@ == s@.take(i as int),
        decreases n - i,
    {
        cs.push(s.get_char(i));
        i = i + 1;
        assert(cs@ =~= s@.take(i as int));
    }
    assert(s@.take(n as int) =~= s@);
    cs
}

/// Whether `needle` occurs in `hay` at position `start`.
fn occurs_at(hay: &Vec<char>, needle: &Vec<char>, start: usize) -> (found: bool)
    requires
        start + needle@.len() <= hay@.len(),
    ensures
        found == (hay@.subrange(start as int, start + needle@.len()) == needle@),
{
    let m = needle.len();
    let hl = hay.len();
    let mut j: usize = 0;
    while j < m
        invariant
            j <= m,
            m == needle@.len(),
            hl == hay@.len(),
            start + m <= hl,
            forall|k: int| 0 <= k < j ==> hay@[start + k] == needle@[k],
        decreases m - j,
    {
        if hay[start + j] != needle[j] {
            assert(hay@.subrange(start as int, start + m)[j as int] != needle@[j as int]);
            return false;
        }
        j = j + 1;
    }
    assert(hay@.subrange(start as int, start + m) =~= needle@);
    true
}

/// Whether `needle` occurs in `hay` as a contiguous run of characters.
fn contains_chars(hay: &Vec<char>, needle: &Vec<char>) -> (found: bool)
    ensures
        found == contains_text(hay@, needle@),
{
    let n = hay.len();
    let m = needle.len();
    if m > n {
        return false;
    }
    if m == 0 {
        assert(hay@.subrange(0, 0 + m as int) =~= needle@);
        return true;
    }
    let mut i: usize = 0;
    while i <= n - m
        invariant
            1 <= m <= n,
            n == hay@.len(),
            m == needle@.len(),
            forall|k: int| 0 <= k < i ==> #[trigger] hay@.subrange(k, k + m) != needle@,
        decreases n - m + 1 - i,
    {
        if occurs_at(hay, needle, i) {
            return true;
        }
        i = i + 1;
    }
    false
}

/// For each event text, whether it mentions the payer: the events that the
/// `list` subcommand reports for that payer are those marked `true`.
pub fn payer_matches(events: &Vec<String>, payer: &str) -> (marks: Vec<bool>)
    ensures
        marks@.len() == events@.len(),
        forall|i: int| 0 <= i < events@.len() ==> marks@[i] == contains_text(#[trigger] events@[i]@, payer@),
{
    let needle = chars_of(payer);
    let mut marks: Vec<bool> = Vec::new();
    let mut i: usize = 0;
    while i < events.len()
        invariant
            i <= events@.len(),
            needle@ == payer@,
            marks@.len() == i,
            forall|k: int| 0 <= k < i ==> marks@[k] == contains_text(#[trigger] events@[k]@, payer@),
        decreases events@.len() - i,
    {
        let hay = chars_of(events[i].as_str());
        let found = contains_chars(&hay, &needle);
        marks.push(found);
        i = i + 1;
    }
    marks
}

/// The code of the ASCII lower case of a character; other characters keep their code.
pub open spec fn ascii_lower(c: char) -> int {
    if 'A' <= c && c <= 'Z' {
        c as int + 32
    } else {
        c as int
    }
}

/// Two texts that differ at most in the case of ASCII letters.
pub open spec fn equal_ignoring_ascii_case(a: Seq<char>, b: Seq<char>) -> bool {
    a.len() == b.len() && forall|i: int| 0 <= i < a.len() ==> #[trigger] ascii_lower(a[i]) == ascii_lower(b[i])
}

/// Two texts match, the case aside, exactly when they have the same length
/// and at each position hold the same character, or the upper and the lower
/// case of one ASCII letter.
pub proof fn lemma_case_blind_match(a: Seq<char>, b: Seq<char>)
    ensures
        equal_ignoring_ascii_case(a, b) <==> (a.len() == b.len() && forall|i: int|
            0 <= i < a.len() ==> (#[trigger] a[i] == b[i] || ('A' <= a[i] && a[i] <= 'Z' && b[i] as int
                == a[i] as int + 32) || ('A' <= b[i] && b[i] <= 'Z' && a[i] as int == b[i] as int
                + 32))),
{
    if equal_ignoring_ascii_case(a, b) {
        assert forall|i: int| 0 <= i < a.len() implies (#[trigger] a[i] == b[i] || ('A' <= a[i] && a[i]
            <= 'Z' && b[i] as int == a[i] as int + 32) || ('A' <= b[i] && b[i] <= 'Z' && a[i] as int
            == b[i] as int + 32)) by {
            assert(ascii_lower(a[i]) == ascii_lower(b[i]));
        }
    }
    if a.len() == b.len() && forall|i: int|
        0 <= i < a.len() ==> (#[trigger] a[i] == b[i] || ('A' <= a[i] && a[i] <= 'Z' && b[i] as int
            == a[i] as int + 32) || ('A' <= b[i] && b[i] <= 'Z' && a[i] as int == b[i] as int + 32)) {
        assert forall|i: int| 0 <= i < a.len() implies #[trigger] ascii_lower(a[i]) == ascii_lower(
            b[i],
        ) by {
            assert(a[i] == b[i] || ('A' <= a[i] && a[i] <= 'Z' && b[i] as int == a[i] as int + 32) || (
            'A' <= b[i] && b[i] <= 'Z' && a[i] as int == b[i] as int + 32));
        }
    }
}

fn lower(c: char) -> (l: u32)
    ensures
        l as int == ascii_lower(c),
{
    if 'A' <= c && c <= 'Z' {
        c as u32 + 32
    } else {
        c as u32
    }
}

/// Whether a locally computed WASM hash matches the deployed one, the case of
/// hexadecimal letters aside.
pub fn hashes_match(local: &str, remote: &str) -> (same: bool)
    ensures
        same == equal_ignoring_ascii_case(local@, remote@),
{
    let a = chars_of(local);
    let b = chars_of(remote);
    if a.len() != b.len() {
        return false;
    }
    let mut i: usize = 0;
    while i < a.len()
        invariant
            i <= a@.len(),
            a@.len() == b@.len(),
            a@ == local@,
            b@ == remote@,
            forall|k: int| 0 <= k < i ==> #[trigger] ascii_lower(a@[k]) == ascii_lower(b@[k]),
        decreases a@.len() - i,
    {
        if lower(a[i]) != lower(b[i]) {
            return false;
        }
        i = i + 1;
    }
    true
}

} // verus!
