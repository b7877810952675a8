//! The build manifest of a container run: a fixed minimal base image, the
//! script copied into the working directory, a dependency-install layer only
//! when there are dependencies, and the command that runs the script.
use vstd::prelude::*;
use crate::text::views;

verus! {

/// Base image, working directory and script copy.
pub const MANIFEST_HEAD: &'static str = "FROM python:3.9-slim\nWORKDIR /app\nCOPY script.py /app/\n";

/// Start of the dependency-install layer.
pub const INSTALL_PREFIX: &'static str = "RUN pip install --no-cache-dir ";

/// The command that runs the script.
pub const MANIFEST_CMD: &'static str = "CMD [\"python\", \"script.py\"]";

/// The names separated by single spaces.
pub open spec fn joined(names: Seq<Seq<char>>) -> Seq<char>
    decreases names.len(),
{
    if names.len() == 0 {
        Seq::empty()
    } else if names.len() == 1 {
        names[0]
    } else {
        joined(names.drop_last()) + seq![' '] + names.last()
    }
}

/// The dependency-install layer: none for an empty list.
pub open spec fn install_layer(names: Seq<Seq<char>>) -> Seq<char> {
    if names.len() == 0 {
        Seq::empty()
    } else {
        INSTALL_PREFIX@ + joined(names) + seq!['\n']
    }
}

pub open spec fn manifest_of(names: Seq<Seq<char>>) -> Seq<char> {
    MANIFEST_HEAD@ + install_layer(names) + MANIFEST_CMD@
}

/// A single dependency gives an install layer naming exactly that
/// dependency; an empty list gives no install layer.
pub proof fn lemma_install_layer(name: Seq<char>)
    ensures
        install_layer(seq![name]) == INSTALL_PREFIX@ + name + seq!['\n'],
        install_layer(Seq::empty()) == Seq::<char>::empty(),
        manifest_of(Seq::empty()) == MANIFEST_HEAD@ + MANIFEST_CMD@,
{
    assert(manifest_of(Seq::empty()) =~= MANIFEST_HEAD@ + MANIFEST_CMD@);
}

/// Joins the names with single spaces.
pub fn join_names(names: &Vec<String>) -> (r: String)
    ensures
        r@ == joined(views(names@)),
{
    let mut r = String::new();
    let mut i: usize = 0;
    while i < names.len()
        invariant
            i <= names@.len(),
            r@ == joined(views(names@).subrange(0, i as int)),
        decreases names@.len() - i,
    {
        proof {
            let s = views(names@).subrange(0, i + 1);
            assert(s.drop_last() =~= views(names@).subrange(0, i as int));
        }
        if i > 0 {
            r.append(" ");
            proof {
                reveal_strlit(" ");
            }
        }
        r.append(names[i].as_str());
        proof {
            if i == 0 {
                assert(r@ =~= names@[0]@);
            } else {
                assert(r@ =~= joined(views(names@).subrange(0, i as int)) + seq![' '] + names@[i as int]@);
            }
        }
        i = i + 1;
    }
    assert(views(names@).subrange(0, names@.len() as int) =~= views(names@));
    r
}

/// The build manifest for a script with the given dependencies.
pub fn build_manifest(names: &Vec<String>) -> (r: String)
    ensures
        r@ == manifest_of(views(names@)),
        names@.len() == 0 ==> r@ == MANIFEST_HEAD@ + MANIFEST_CMD@,
{
    let mut r = String::from_str(MANIFEST_HEAD);
    if names.len() > 0 {
        r.append(INSTALL_PREFIX);
        let j = join_names(names);
        r.append(j.as_str());
        r.append("\n");
        proof {
            reveal_strlit("\n");
        }
    }
    r.append(MANIFEST_CMD);
    proof {
        if names@.len() == 0 {
            assert(install_layer(views(names@)) =~= Seq::<char>::empty());
        }
    }
    assert(r@ =~= manifest_of(views(names@)));
    r
}

} // verus!
