//! Entry point of a code run: the guard comes first, and only code the guard
//! lets through gets a run identifier, a dependency list and a container run.
use vstd::prelude::*;
use crate::action::Action;
use crate::container::{ContainerRun, container_start, run_with_docker};
use crate::guard::{MAX_CODE_BYTES, check_code, code_allowed, denied_patterns, first_denied};
use crate::hub::opt_view;
use crate::text::{comma_list, parse_comma_list, views};
use vstd::string::StringSliceAdditionalSpecFns;

verus! {

/// The hyphenated lower-case form of a UUID: 36 characters, hyphens at 8,
/// 13, 18 and 23, hexadecimal digits elsewhere.
pub open spec fn is_hyphenated_uuid(s: Seq<char>) -> bool {
    &&& s.len() == 36
    &&& forall|i: int|
        0 <= i < 36 ==> if i == 8 || i == 13 || i == 18 || i == 23 {
            #[trigger] s[i] == '-'
        } else {
            ('0' <= s[i] <= '9') || ('a' <= s[i] <= 'f')
        }
}

/// Relies on uuid::Uuid::new_v4 and the Display impl of uuid::Uuid (its
/// hyphenated lower-case form): a random identifier. Which identifier comes
/// out is left open. `new_v4` panics only when the system's random source
/// fails.
#[verifier::external_body]
fn new_run_id() -> (r: String)
    ensures
        is_hyphenated_uuid(r@),
{
    uuid::Uuid::new_v4().to_string()
}

/// The dependency names of an optional comma-separated list.
pub open spec fn requirement_names(requirements: Option<Seq<char>>) -> Seq<Seq<char>> {
    match requirements {
        Some(t) => comma_list(t),
        None => Seq::empty(),
    }
}

/// The text of a guard refusal for `code`.
pub open spec fn refusal_text(byte_len: nat, code: Seq<char>) -> Seq<char> {
    if byte_len > MAX_CODE_BYTES {
        "Code is too large!"@
    } else {
        "Code contains a forbidden pattern: "@ + denied_patterns()[choose|k: int| first_denied(code, k)]
    }
}

proof fn lemma_first_denied_unique(code: Seq<char>, k: int, m: int)
    requires
        first_denied(code, k),
        first_denied(code, m),
    ensures
        k == m,
{
}

/// The guard's verdict on `code`, with the refusal's text.
pub fn guard_code(code: &str) -> (r: Result<(), String>)
    ensures
        r is Err <==> !code_allowed(code.spec_bytes().len(), code@),
        r matches Err(m) ==> m@ == refusal_text(code.spec_bytes().len(), code@),
{
    match check_code(code) {
        Err(rejection) => {
            proof {
                if rejection is Forbidden {
                    let pattern = rejection->pattern;
                    let k = choose|k: int| first_denied(code@, k) && denied_patterns()[k] == pattern@;
                    let c = choose|k: int| first_denied(code@, k);
                    lemma_first_denied_unique(code@, k, c);
                }
            }
            Err(rejection.message())
        },
        Ok(()) => Ok(()),
    }
}

/// Starts a container run of `code` under `run_id`, with the dependencies of
/// the comma-separated list (none when absent). Code the guard refuses gets
/// no run: the refusal comes back before any outside work is asked for.
pub fn start_code_run(code: &str, requirements: Option<String>, run_id: &str) -> (r: Result<
    (ContainerRun, Action),
    String,
>)
    ensures
        r is Err <==> !code_allowed(code.spec_bytes().len(), code@),
        r matches Err(m) ==> m@ == refusal_text(code.spec_bytes().len(), code@),
        r matches Ok(p) ==> (p.0@, p.1@) == container_start(
            run_id@,
            code@,
            requirement_names(opt_view(requirements)),
        ),
{
    match guard_code(code) {
        Err(m) => Err(m),
        Ok(()) => {
            let names = match &requirements {
                Some(t) => parse_comma_list(t.as_str()),
                None => Vec::new(),
            };
            proof {
                if requirements is None {
                    assert(views(names@) =~= Seq::<Seq<char>>::empty());
                }
            }
            Ok(run_with_docker(code, names.as_slice(), run_id))
        },
    }
}

/// Starts a container run of `code` under a fresh random identifier, as
/// `start_code_run` says. Distinct identifiers give distinct names
/// (`lemma_distinct_ids_distinct_names`); that two random identifiers differ
/// is left to the randomness of the UUID and is not promised here.
pub fn run_python_code(code: &str, requirements: Option<String>) -> (r: Result<
    (ContainerRun, Action),
    String,
>)
    ensures
        r is Err <==> !code_allowed(code.spec_bytes().len(), code@),
        r matches Err(m) ==> m@ == refusal_text(code.spec_bytes().len(), code@),
        r matches Ok(p) ==> is_hyphenated_uuid(p.0@.id) && (p.0@, p.1@) == container_start(
            p.0@.id,
            code@,
            requirement_names(opt_view(requirements)),
        ),
{
    if let Err(m) = guard_code(code) {
        return Err(m);
    }
    let id = new_run_id();
    start_code_run(code, requirements, id.as_str())
}

} // verus!
