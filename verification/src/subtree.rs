//! The two halves of forwarding header generation.
//!
//! The forwarding headers of public headers and those of private headers are
//! made from the same list of headers and go to different directories: the
//! destination itself and its `private` directory. Neither half reads what
//! the other writes, and no file of one has the path of a file of the other,
//! so the two may be generated and written at the same time.

use vstd::prelude::*;
use vstd::string::*;
use crate::error::{ErrorView, GenError};
use crate::forwarding::{
    class_forwarding_header,
    collect,
    forwarding_header,
    header_forwarding,
    lemma_collect_failure,
    lemma_collect_member,
    lemma_collect_step,
    name_steps,
    private_destination,
    write_header_forwarding,
    zero_or_one,
};
use crate::header::{
    FileView,
    GeneratedFile,
    HeaderFile,
    HeaderView,
    declared_type_names,
    files_outcome,
    is_private,
};
use crate::paths::{file_name, is_absolute, join, lemma_file_name_is_plain};
use crate::scanner::{lemma_reported_names_qualify, qualifies};

verus! {

/// One of the two halves of a module's forwarding headers.
#[derive(Debug, Clone, Copy, PartialEq, Eq, Structural)]
pub enum Subtree {
    /// The headers for everyone, in the destination itself.
    Public,
    /// The headers for the module's own code, in the `private` directory.
    Private,
}

/// Whether a header at `path` belongs to `subtree`.
pub open spec fn belongs_to(path: Seq<char>, subtree: Subtree) -> bool {
    is_private(path) == (subtree == Subtree::Private)
}

/// The steps that make the forwarding headers of one subtree: a header of
/// the other subtree is passed over.
pub open spec fn subtree_steps(
    destination: Seq<char>,
    headers: Seq<HeaderView>,
    sentinel: Seq<char>,
    subtree: Subtree,
) -> Seq<Result<Seq<FileView>, ErrorView>> {
    Seq::new(
        headers.len(),
        |i: int|
            if belongs_to(headers[i].path, subtree) {
                header_forwarding(destination, headers[i], sentinel)
            } else {
                Ok(Seq::empty())
            },
    )
}

/// A sentinel that begins with a capital letter, as the prefix of a
/// framework's type names does.
pub open spec fn capitalised(sentinel: Seq<char>) -> bool {
    sentinel.len() > 0 && 'A' <= sentinel[0] <= 'Z'
}

/// The destination with a separator at its end, if it needs one before a
/// further component.
pub open spec fn with_separator(destination: Seq<char>) -> Seq<char> {
    if destination.len() > 0 && destination.last() != '/' {
        destination.push('/')
    } else {
        destination
    }
}

/// A name under which a public forwarding header may be filed: the name of a
/// file, or a type name with a capitalised sentinel.
pub open spec fn public_name(name: Seq<char>) -> bool {
    &&& name.len() > 0
    &&& name[0] != '/'
    &&& name[0] != 'p' || forall|k: int| 0 <= k < name.len() ==> name[k] != '/'
}

/// A file below the private directory never has the path of a file that is
/// filed under a public name in the destination itself.
pub proof fn lemma_private_path_differs(
    destination: Seq<char>,
    private_name: Seq<char>,
    name: Seq<char>,
)
    requires
        private_name.len() > 0,
        private_name[0] != '/',
        public_name(name),
    ensures
        join(private_destination(destination), private_name) != join(destination, name),
{
    reveal_strlit("private");
    let word = "private"@;
    let base = with_separator(destination);
    let dir = private_destination(destination);
    assert(word[0] == 'p');
    assert(!is_absolute(word));
    assert(dir =~= base + word);
    assert(dir.last() == word[6]);
    let private_path = join(dir, private_name);
    assert(private_path =~= base + word + seq!['/'] + private_name);
    let public_path = join(destination, name);
    assert(public_path =~= base + name);
    if private_path == public_path {
        assert(private_path[base.len() as int] == word[0]);
        assert(public_path[base.len() as int] == name[0]);
        assert(private_path[base.len() as int + 7] == '/');
        assert(public_path.len() == private_path.len());
        assert(public_path[base.len() as int + 7] == name[7]);
    }
}

/// Where the forwarding headers of one header lie: those of a private header
/// below the private directory, under the name of the header's file; those
/// of a public header in the destination, under the name of the header's
/// file or under a type name that qualifies.
pub proof fn lemma_header_forwarding_paths(
    destination: Seq<char>,
    header: HeaderView,
    sentinel: Seq<char>,
    k: int,
)
    requires
        header_forwarding(destination, header, sentinel) is Ok,
        0 <= k < header_forwarding(destination, header, sentinel)->Ok_0.len(),
    ensures
        ({
            let file = header_forwarding(destination, header, sentinel)->Ok_0[k];
            if is_private(header.path) {
                file.path == join(private_destination(destination), file_name(header.path)->0)
            } else {
                ||| file.path == join(destination, file_name(header.path)->0)
                ||| exists|name: Seq<char>|
                    qualifies(name, sentinel) && file.path == join(destination, name)
            }
        }),
        is_private(header.path) ==> file_name(header.path) is Some,
{
    let files = header_forwarding(destination, header, sentinel)->Ok_0;
    if !is_private(header.path) {
        let named = zero_or_one(forwarding_header(destination, header))->Ok_0;
        if k >= named.len() {
            let names = declared_type_names(header, sentinel)->Ok_0;
            let steps = name_steps(destination, names, header);
            let typed = class_forwarding_header(destination, header, sentinel)->Ok_0;
            let at = k - named.len();
            assert(files[k] == typed[at]);
            lemma_collect_member(steps, at);
            let (i, j) = choose|i: int, j: int|
                0 <= i < steps.len() && (#[trigger] steps[i]) is Ok && 0 <= j
                    < steps[i]->Ok_0.len() && #[trigger] steps[i]->Ok_0[j] == typed[at];
            lemma_names_qualify(header, sentinel, i);
            assert(files[k].path == join(destination, names[i]));
        }
    }
}

/// The type names that a header declares qualify.
proof fn lemma_names_qualify(header: HeaderView, sentinel: Seq<char>, i: int)
    requires
        declared_type_names(header, sentinel) is Ok,
        0 <= i < declared_type_names(header, sentinel)->Ok_0.len(),
    ensures
        qualifies(declared_type_names(header, sentinel)->Ok_0[i], sentinel),
{
    let text = vstd::utf8::decode_utf8(header.content->0);
    lemma_reported_names_qualify(text, sentinel, i);
}

/// Public and private forwarding headers lie in disjoint subtrees: whatever
/// the two headers, no forwarding header of a private header has the path of
/// a forwarding header of a public header. The type names must begin with a
/// capital letter, which keeps them apart from the `private` directory.
pub proof fn lemma_public_and_private_are_disjoint(
    destination: Seq<char>,
    public: HeaderView,
    private: HeaderView,
    sentinel: Seq<char>,
    i: int,
    j: int,
)
    requires
        capitalised(sentinel),
        !is_private(public.path),
        is_private(private.path),
        header_forwarding(destination, public, sentinel) is Ok,
        header_forwarding(destination, private, sentinel) is Ok,
        0 <= i < header_forwarding(destination, public, sentinel)->Ok_0.len(),
        0 <= j < header_forwarding(destination, private, sentinel)->Ok_0.len(),
    ensures
        header_forwarding(destination, public, sentinel)->Ok_0[i].path != header_forwarding(
            destination,
            private,
            sentinel,
        )->Ok_0[j].path,
{
    let public_file = header_forwarding(destination, public, sentinel)->Ok_0[i];
    lemma_header_forwarding_paths(destination, public, sentinel, i);
    lemma_header_forwarding_paths(destination, private, sentinel, j);
    lemma_file_name_is_plain(private.path);
    let private_name = file_name(private.path)->0;
    if public_file.path == join(destination, file_name(public.path)->0) && file_name(
        public.path,
    ) is Some {
        lemma_file_name_is_plain(public.path);
        lemma_private_path_differs(destination, private_name, file_name(public.path)->0);
    } else {
        lemma_public_forwarding_needs_a_name(destination, public, sentinel, i);
        let name = choose|name: Seq<char>|
            qualifies(name, sentinel) && public_file.path == join(destination, name);
        assert(name[0] == sentinel[0]);
        lemma_private_path_differs(destination, private_name, name);
    }
}

/// A public forwarding header is filed under the name of the header's file
/// only where the header's path names a file.
proof fn lemma_public_forwarding_needs_a_name(
    destination: Seq<char>,
    header: HeaderView,
    sentinel: Seq<char>,
    k: int,
)
    requires
        !is_private(header.path),
        header_forwarding(destination, header, sentinel) is Ok,
        0 <= k < header_forwarding(destination, header, sentinel)->Ok_0.len(),
        !(header_forwarding(destination, header, sentinel)->Ok_0[k].path == join(
            destination,
            file_name(header.path)->0,
        ) && file_name(header.path) is Some),
    ensures
        exists|name: Seq<char>|
            qualifies(name, sentinel) && header_forwarding(
                destination,
                header,
                sentinel,
            )->Ok_0[k].path == join(destination, name),
{
    lemma_header_forwarding_paths(destination, header, sentinel, k);
    let files = header_forwarding(destination, header, sentinel)->Ok_0;
    let named = zero_or_one(forwarding_header(destination, header))->Ok_0;
    if file_name(header.path) is None {
        assert(named.len() == 0);
        let names = declared_type_names(header, sentinel)->Ok_0;
        let steps = name_steps(destination, names, header);
        let typed = class_forwarding_header(destination, header, sentinel)->Ok_0;
        assert(files[k] == typed[k]);
        lemma_collect_member(steps, k);
        let (i, j) = choose|i: int, j: int|
            0 <= i < steps.len() && (#[trigger] steps[i]) is Ok && 0 <= j < steps[i]->Ok_0.len()
                && #[trigger] steps[i]->Ok_0[j] == typed[k];
        lemma_names_qualify(header, sentinel, i);
        assert(files[k].path == join(destination, names[i]));
    }
}

/// The two subtrees of a module never share a path: no file of the public
/// half of its forwarding headers has the path of a file of the private
/// half. So the two halves can be written at the same time without a lock.
pub proof fn lemma_subtrees_are_disjoint(
    destination: Seq<char>,
    headers: Seq<HeaderView>,
    sentinel: Seq<char>,
    i: int,
    j: int,
)
    requires
        capitalised(sentinel),
        collect(subtree_steps(destination, headers, sentinel, Subtree::Public)) is Ok,
        collect(subtree_steps(destination, headers, sentinel, Subtree::Private)) is Ok,
        0 <= i < collect(
            subtree_steps(destination, headers, sentinel, Subtree::Public),
        )->Ok_0.len(),
        0 <= j < collect(
            subtree_steps(destination, headers, sentinel, Subtree::Private),
        )->Ok_0.len(),
    ensures
        collect(subtree_steps(destination, headers, sentinel, Subtree::Public))->Ok_0[i].path
            != collect(
            subtree_steps(destination, headers, sentinel, Subtree::Private),
        )->Ok_0[j].path,
{
    let public_steps = subtree_steps(destination, headers, sentinel, Subtree::Public);
    let private_steps = subtree_steps(destination, headers, sentinel, Subtree::Private);
    lemma_collect_member(public_steps, i);
    lemma_collect_member(private_steps, j);
    let (a, x) = choose|a: int, x: int|
        0 <= a < public_steps.len() && (#[trigger] public_steps[a]) is Ok && 0 <= x
            < public_steps[a]->Ok_0.len() && #[trigger] public_steps[a]->Ok_0[x] == collect(
            public_steps,
        )->Ok_0[i];
    let (b, y) = choose|b: int, y: int|
        0 <= b < private_steps.len() && (#[trigger] private_steps[b]) is Ok && 0 <= y
            < private_steps[b]->Ok_0.len() && #[trigger] private_steps[b]->Ok_0[y] == collect(
            private_steps,
        )->Ok_0[j];
    lemma_public_and_private_are_disjoint(destination, headers[a], headers[b], sentinel, x, y);
}

/// Makes the forwarding headers of one subtree of a module below
/// `destination_path`: those of its public headers, or those of its private
/// headers. Headers of the other subtree are passed over unread.
pub fn write_subtree_forwarding_headers(
    headers: &Vec<HeaderFile>,
    destination_path: &str,
    sentinel: &str,
    subtree: Subtree,
) -> (files: Result<Vec<GeneratedFile>, GenError>)
    ensures
        files_outcome(files) == collect(
            subtree_steps(destination_path@, headers.deep_view(), sentinel@, subtree),
        ),
{
    let ghost steps = subtree_steps(destination_path@, headers.deep_view(), sentinel@, subtree);
    let wanted = match subtree {
        Subtree::Public => false,
        Subtree::Private => true,
    };
    let mut files: Vec<GeneratedFile> = Vec::new();
    let mut i: usize = 0;
    assert(steps.take(0) =~= Seq::empty());
    assert(files.deep_view() =~= Seq::empty());
    while i < headers.len()
        invariant
            i <= headers@.len(),
            wanted == (subtree == Subtree::Private),
            steps == subtree_steps(destination_path@, headers.deep_view(), sentinel@, subtree),
            collect(steps.take(i as int)) == Ok::<Seq<FileView>, ErrorView>(files.deep_view()),
        decreases headers@.len() - i,
    {
        proof {
            lemma_collect_step(steps, i as int);
            assert(headers.deep_view()[i as int] == headers@[i as int]@);
        }
        if headers[i].is_private() == wanted {
            match write_header_forwarding(destination_path, &headers[i], sentinel) {
                Err(e) => {
                    proof {
                        lemma_collect_failure(steps, i + 1);
                    }
                    return Err(e);
                },
                Ok(mut more) => {
                    let ghost before = files.deep_view();
                    let ghost added = more.deep_view();
                    files.append(&mut more);
                    assert(files.deep_view() =~= before + added);
                },
            }
        } else {
            assert(files.deep_view() + Seq::<FileView>::empty() =~= files.deep_view());
        }
        i += 1;
    }
    assert(steps.take(steps.len() as int) =~= steps);
    Ok(files)
}

} // verus!
