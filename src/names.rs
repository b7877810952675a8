//! Names derived from a run identifier: workspace directory prefixes, image
//! tags and container names. Each is a fixed prefix followed by the
//! identifier, so distinct identifiers never share a name.
use vstd::prelude::*;

verus! {

/// A fixed prefix followed by the identifier.
pub open spec fn prefixed(prefix: Seq<char>, id: Seq<char>) -> Seq<char> {
    prefix + id
}

pub open spec fn image_tag_of(id: Seq<char>) -> Seq<char> {
    prefixed("python-runner-"@, id)
}

pub open spec fn container_name_of(id: Seq<char>) -> Seq<char> {
    prefixed("runner-"@, id)
}

pub open spec fn hub_container_name_of(id: Seq<char>) -> Seq<char> {
    prefixed("hub-runner-"@, id)
}

pub open spec fn workspace_name_of(id: Seq<char>) -> Seq<char> {
    prefixed("run_"@, id)
}

pub open spec fn venv_name_of(id: Seq<char>) -> Seq<char> {
    prefixed("venv_"@, id)
}

fn with_prefix(prefix: &str, id: &str) -> (r: String)
    ensures
        r@ == prefixed(prefix@, id@),
{
    let mut r = String::from_str(prefix);
    r.append(id);
    r
}

/// Tag of the image built for one run.
pub fn image_tag(id: &str) -> (r: String)
    ensures
        r@ == image_tag_of(id@),
{
    with_prefix("python-runner-", id)
}

/// Name of the container that runs the image built for one run.
pub fn container_name(id: &str) -> (r: String)
    ensures
        r@ == container_name_of(id@),
{
    with_prefix("runner-", id)
}

/// Name of the container that runs an external image.
pub fn hub_container_name(id: &str) -> (r: String)
    ensures
        r@ == hub_container_name_of(id@),
{
    with_prefix("hub-runner-", id)
}

/// Name (prefix) of the scratch directory of a container run.
pub fn workspace_name(id: &str) -> (r: String)
    ensures
        r@ == workspace_name_of(id@),
{
    with_prefix("run_", id)
}

/// Name (prefix) of the virtual environment directory of a run.
pub fn venv_name(id: &str) -> (r: String)
    ensures
        r@ == venv_name_of(id@),
{
    with_prefix("venv_", id)
}

proof fn lemma_prefixed_injective(prefix: Seq<char>, a: Seq<char>, b: Seq<char>)
    requires
        a != b,
    ensures
        prefixed(prefix, a) != prefixed(prefix, b),
{
    if prefixed(prefix, a) == prefixed(prefix, b) {
        let n = prefix.len() as int;
        assert(a =~= prefixed(prefix, a).subrange(n, prefixed(prefix, a).len() as int));
        assert(b =~= prefixed(prefix, b).subrange(n, prefixed(prefix, b).len() as int));
    }
}

/// Two runs with distinct identifiers never share a directory name, an
/// image tag or a container name.
pub proof fn lemma_distinct_ids_distinct_names(a: Seq<char>, b: Seq<char>)
    requires
        a != b,
    ensures
        workspace_name_of(a) != workspace_name_of(b),
        venv_name_of(a) != venv_name_of(b),
        image_tag_of(a) != image_tag_of(b),
        container_name_of(a) != container_name_of(b),
        hub_container_name_of(a) != hub_container_name_of(b),
{
    lemma_prefixed_injective("run_"@, a, b);
    lemma_prefixed_injective("venv_"@, a, b);
    lemma_prefixed_injective("python-runner-"@, a, b);
    lemma_prefixed_injective("runner-"@, a, b);
    lemma_prefixed_injective("hub-runner-"@, a, b);
}

} // verus!
