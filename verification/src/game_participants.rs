//! The exact game-file participants of a combined Vulkan install: for each
//! operation of the plan, the file it touches with its bytes before and after,
//! and the files the install is to record as created.
//!
//! Only the two operations the RenoDX plan emits for that flow are understood:
//! `Replace` and `UpdateText`. Any other operation refuses the whole plan, so a
//! new operation cannot enter a combined transaction without a rule of its own.
use vstd::prelude::*;

use crate::errors::ServiceError;
use crate::install_plan::{copy_bytes, FileOp};
use crate::peer_effects::FileIntent;
use crate::uninstall::opt_seq;
use crate::uninstall_plan::{intent_view, FileRead};
use vstd::utf8::{decode_utf8, valid_utf8};

verus! {

/// `String::from_utf8_lossy`: the text of the bytes, with each invalid UTF-8
/// sequence replaced by U+FFFD.
pub uninterp spec fn lossy_text_of(bytes: Seq<u8>) -> Seq<char>;

/// `String::from_utf8_lossy`, owned. Trusted: the result is the lossy text of
/// the bytes, and valid UTF-8 comes back as the text it encodes.
#[verifier::external_body]
fn decode_lossy(bytes: &[u8]) -> (r: String)
    ensures
        r@ == lossy_text_of(bytes@),
        valid_utf8(bytes@) ==> r@ == decode_utf8(bytes@),
{
    String::from_utf8_lossy(bytes).into_owned()
}

/// What was found for one operation of the plan.
#[derive(Debug)]
pub struct ParticipantFacts {
    /// The path the operation touches in the game folder (for a `Replace` the
    /// validated exact name, for an `UpdateText` an existing file matched
    /// without regard to case, else the name), or why the name is refused.
    pub path: Result<String, ServiceError>,
    /// What was at that path before. A `Replace` reports a non-regular entry;
    /// an `UpdateText` reads whatever is there, so its read is never
    /// `NotRegular`. A failed read carries the error message to report.
    pub before: FileRead,
    /// For an `UpdateText`: the bytes of its strategy applied to the text
    /// `update_text_current` gives for `before`.
    pub updated: Option<Vec<u8>>,
}

/// An error by its kind (`true` for invalid input) and message.
pub open spec fn err_view(e: ServiceError) -> (bool, Seq<char>) {
    match e {
        ServiceError::InvalidInput(m) => (true, m@),
        ServiceError::Failed(m) => (false, m@),
    }
}

/// The refusal of any operation other than `Replace` and `UpdateText`.
pub open spec fn unsupported_operation() -> Seq<char> {
    "RenoDX Vulkan combined planning supports only Replace and UpdateText operations"@
}

/// The text an `UpdateText` starts from: the lossy text of the file, or the
/// default when there is none.
pub open spec fn current_text(before: Option<Seq<u8>>, default: Seq<char>) -> Seq<char> {
    match before {
        Some(b) => lossy_text_of(b),
        None => default,
    }
}

/// One operation's participant: its path, bytes before and after, and whether
/// the install records it as created; or the error that refuses the plan.
pub open spec fn participant_step(op: FileOp, f: ParticipantFacts) -> Result<
    (Seq<char>, Option<Seq<u8>>, Seq<u8>, bool),
    (bool, Seq<char>),
> {
    match op {
        FileOp::Replace { name, bytes } => match f.path {
            Err(e) => Err(err_view(e)),
            Ok(p) => match f.before {
                FileRead::Missing => Ok((p@, None, bytes@, true)),
                FileRead::NotRegular => Err(
                    (true, "cannot replace `"@ + p@ + "`: not a regular file"@),
                ),
                FileRead::Failed(m) => Err((false, m@)),
                FileRead::Bytes(b) => Ok((p@, Some(b@), bytes@, true)),
            },
        },
        FileOp::UpdateText { .. } => match f.path {
            Err(e) => Err(err_view(e)),
            Ok(p) => match f.before {
                FileRead::Missing => Ok((p@, None, opt_seq(f.updated).unwrap(), true)),
                FileRead::Bytes(b) => Ok((p@, Some(b@), opt_seq(f.updated).unwrap(), false)),
                FileRead::Failed(m) => Err((false, m@)),
                FileRead::NotRegular => Err((false, Seq::empty())),
            },
        },
        _ => Err((true, unsupported_operation())),
    }
}

/// The participants of the first `k` operations and the paths recorded as
/// created, in order, or the error of the first operation that refuses.
pub open spec fn participants_upto(ops: Seq<FileOp>, facts: Seq<ParticipantFacts>, k: int) -> Result<
    (Seq<(Seq<char>, Option<Seq<u8>>, Option<Seq<u8>>)>, Seq<Seq<char>>),
    (bool, Seq<char>),
>
    decreases k,
{
    if k <= 0 || k > ops.len() {
        Ok((Seq::empty(), Seq::empty()))
    } else {
        match participants_upto(ops, facts, k - 1) {
            Err(e) => Err(e),
            Ok((files, created)) => match participant_step(ops[k - 1], facts[k - 1]) {
                Err(e) => Err(e),
                Ok((p, before, after, is_created)) => Ok(
                    (
                        files.push((p, before, Some(after))),
                        if is_created {
                            created.push(p)
                        } else {
                            created
                        },
                    ),
                ),
            },
        }
    }
}

/// The facts fit the plan: one per operation, no `NotRegular` read for a text
/// update, and the updated bytes of every text update whose path and read
/// succeeded.
pub open spec fn facts_fit(ops: Seq<FileOp>, facts: Seq<ParticipantFacts>) -> bool {
    &&& facts.len() == ops.len()
    &&& forall|i: int|
        0 <= i < ops.len() && (#[trigger] ops[i]) is UpdateText ==> !(facts[i].before is NotRegular) && (
        facts[i].path is Ok && (facts[i].before is Missing || facts[i].before is Bytes)
            ==> facts[i].updated is Some)
}

/// The text an `UpdateText` starts from: the file's bytes read as UTF-8 with
/// invalid sequences replaced, or `default` when the file is absent.
pub fn update_text_current(before: &Option<Vec<u8>>, default: &str) -> (r: String)
    ensures
        r@ == current_text(opt_seq(*before), default@),
{
    match before {
        Some(bytes) => decode_lossy(bytes.as_slice()),
        None => String::from_str(default),
    }
}

fn copy_error(e: &ServiceError) -> (r: ServiceError)
    ensures
        err_view(r) == err_view(*e),
{
    match e {
        ServiceError::InvalidInput(m) => ServiceError::InvalidInput(m.clone()),
        ServiceError::Failed(m) => ServiceError::Failed(m.clone()),
    }
}

fn step(op: &FileOp, f: &ParticipantFacts) -> (r: Result<(FileIntent, bool), ServiceError>)
    requires
        op is UpdateText ==> !(f.before is NotRegular) && (f.path is Ok && (f.before is Missing
            || f.before is Bytes) ==> f.updated is Some),
    ensures
        match participant_step(*op, *f) {
            Ok((p, before, after, c)) => r matches Ok((i, rc)) && intent_view(i) == (
                p,
                before,
                Some(after),
            ) && rc == c,
            Err(e) => r matches Err(x) && err_view(x) == e,
        },
{
    let is_replace = match op {
        FileOp::Replace { .. } => true,
        FileOp::UpdateText { .. } => false,
        _ => {
            proof {
                reveal_strlit(
                    "RenoDX Vulkan combined planning supports only Replace and UpdateText operations",
                );
            }
            return Err(
                crate::errors::invalid(
                    "RenoDX Vulkan combined planning supports only Replace and UpdateText operations",
                ),
            );
        },
    };
    let path = match &f.path {
        Err(e) => {
            return Err(copy_error(e));
        },
        Ok(p) => p,
    };
    let before: Option<Vec<u8>> = match &f.before {
        FileRead::Missing => None,
        FileRead::Bytes(b) => Some(copy_bytes(b)),
        FileRead::Failed(m) => {
            return Err(ServiceError::Failed(m.clone()));
        },
        FileRead::NotRegular => {
            let msg = String::from_str("cannot replace `").concat(path.as_str()).concat(
                "`: not a regular file",
            );
            return Err(ServiceError::InvalidInput(msg));
        },
    };
    let created = is_replace || before.is_none();
    let after: Vec<u8> = match op {
        FileOp::Replace { bytes, .. } => copy_bytes(bytes),
        _ => match &f.updated {
            Some(u) => copy_bytes(u),
            None => Vec::new(),
        },
    };
    let intent = FileIntent { live_path: path.clone(), before, after: Some(after) };
    Ok((intent, created))
}

/// Plans the exact before and after bytes of every file the operations touch,
/// in order, with the paths the install records as created: a `Replace` always
/// (as the install engine records it), an `UpdateText` only when the file was
/// absent. The first refused name, failed read or unsupported operation
/// refuses the whole plan.
pub fn plan_game_participants(ops: &Vec<FileOp>, facts: &Vec<ParticipantFacts>) -> (r: Result<
    (Vec<FileIntent>, Vec<String>),
    ServiceError,
>)
    requires
        facts_fit(ops@, facts@),
    ensures
        match participants_upto(ops@, facts@, ops@.len() as int) {
            Ok((files, created)) => r matches Ok((v, c)) && v@.len() == files.len() && (forall|t: int|
                0 <= t < files.len() ==> intent_view(#[trigger] v@[t]) == files[t]) && c@.len()
                == created.len() && (forall|t: int| 0 <= t < created.len() ==> #[trigger] c@[t]@ == created[t]),
            Err(e) => r matches Err(x) && err_view(x) == e,
        },
{
    let n = ops.len();
    let mut files: Vec<FileIntent> = Vec::new();
    let mut created: Vec<String> = Vec::new();
    let mut i: usize = 0;
    while i < n
        invariant
            n == ops@.len(),
            facts_fit(ops@, facts@),
            i <= n,
            participants_upto(ops@, facts@, i as int) matches Ok((fs, cs)) && files@.len() == fs.len()
                && (forall|t: int| 0 <= t < fs.len() ==> intent_view(#[trigger] files@[t]) == fs[t])
                && created@.len() == cs.len() && (forall|t: int|
                0 <= t < cs.len() ==> #[trigger] created@[t]@ == cs[t]),
        decreases n - i,
    {
        proof {
            if ops@[i as int] is UpdateText {
                assert(ops@[i as int] is UpdateText);
            }
        }
        let ghost prior_files = files@;
        let ghost prior_created = created@;
        match step(&ops[i], &facts[i]) {
            Err(e) => {
                proof {
                    lemma_participants_stop(ops@, facts@, i + 1, n as int);
                }
                return Err(e);
            },
            Ok((intent, is_created)) => {
                if is_created {
                    created.push(intent.live_path.clone());
                }
                files.push(intent);
                proof {
                    let fs = participants_upto(ops@, facts@, i as int)->Ok_0.0;
                    let cs = participants_upto(ops@, facts@, i as int)->Ok_0.1;
                    let nf = participants_upto(ops@, facts@, i + 1)->Ok_0.0;
                    let nc = participants_upto(ops@, facts@, i + 1)->Ok_0.1;
                    assert forall|t: int| 0 <= t < nf.len() implies intent_view(#[trigger] files@[t]) == nf[t] by {
                        if t < fs.len() {
                            assert(files@[t] == prior_files[t]);
                        }
                    }
                    assert forall|t: int| 0 <= t < nc.len() implies #[trigger] created@[t]@ == nc[t] by {
                        if t < cs.len() {
                            assert(created@[t] == prior_created[t]);
                        }
                    }
                }
            },
        }
        i = i + 1;
    }
    Ok((files, created))
}

proof fn lemma_participants_stop(ops: Seq<FileOp>, facts: Seq<ParticipantFacts>, j: int, k: int)
    requires
        0 < j <= k <= ops.len(),
        participants_upto(ops, facts, j) is Err,
    ensures
        participants_upto(ops, facts, k) == participants_upto(ops, facts, j),
    decreases k - j,
{
    if j < k {
        lemma_participants_stop(ops, facts, j, k - 1);
    }
}

} // verus!
