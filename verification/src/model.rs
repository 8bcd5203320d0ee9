use vstd::prelude::*;
use vstd::string::StringExecFns;

verus! {

/// One uploaded file: a name and its byte content.  The order of payloads
/// within a request is significant: it is the commit order.
pub struct FilePayload {
    pub name: String,
    pub content: Vec<u8>,
}

/// Mathematical image of a `FilePayload`.
pub ghost struct PayloadView {
    pub name: Seq<char>,
    pub content: Seq<u8>,
}

impl View for FilePayload {
    type V = PayloadView;

    open spec fn view(&self) -> PayloadView {
        PayloadView { name: self.name@, content: self.content@ }
    }
}

/// One record in a repository's history: the commit message, and the payload
/// the commit added.  Records form a chain by position: the record at index
/// `i` of a history has the record at `i - 1` as its single parent, and the
/// record at index 0 is the root commit, with no parent.  The tree snapshot
/// of the record at index `i` is derived from the whole chain up to `i`
/// (see [`tree_of`]): each commit captures all files recorded so far.
pub struct CommitRecord {
    pub message: String,
    pub name: String,
    pub content: Vec<u8>,
}

/// Mathematical image of a `CommitRecord`.
pub ghost struct CommitView {
    pub message: Seq<char>,
    pub name: Seq<char>,
    pub content: Seq<u8>,
}

impl View for CommitRecord {
    type V = CommitView;

    open spec fn view(&self) -> CommitView {
        CommitView { message: self.message@, name: self.name@, content: self.content@ }
    }
}

/// The views of a chain of commit records, oldest first.
pub open spec fn commit_views(s: Seq<CommitRecord>) -> Seq<CommitView> {
    s.map_values(|c: CommitRecord| c@)
}

/// The message of the very first commit ever made in a repository.
pub open spec fn root_message(name: Seq<char>) -> Seq<char> {
    "Initial commit: "@ + name
}

/// The message of every commit that has a parent.
pub open spec fn child_message(name: Seq<char>) -> Seq<char> {
    "Add "@ + name
}

/// The message a commit for `name` carries, depending on whether it is the
/// root of the repository's history.
pub open spec fn commit_message(is_root: bool, name: Seq<char>) -> Seq<char> {
    if is_root {
        root_message(name)
    } else {
        child_message(name)
    }
}

/// Build the commit message for `name`.
pub fn make_message(is_root: bool, name: &String) -> (m: String)
    ensures
        m@ == commit_message(is_root, name@),
{
    if is_root {
        String::from_str("Initial commit: ").concat(name.as_str())
    } else {
        String::from_str("Add ").concat(name.as_str())
    }
}

/// The commit that a payload produces when the history already holds
/// `base_len + i` commits before it.
pub open spec fn planned_commit(base_len: int, i: int, p: PayloadView) -> CommitView {
    CommitView {
        message: commit_message(base_len + i == 0, p.name),
        name: p.name,
        content: p.content,
    }
}

/// The chain of commits an ordered payload sequence produces on top of a
/// history of length `base_len`: one commit per payload, in input order.
pub open spec fn planned(base_len: int, ps: Seq<PayloadView>) -> Seq<CommitView> {
    Seq::new(ps.len(), |i: int| planned_commit(base_len, i, ps[i]))
}

/// The tree snapshot captured by the last commit of a chain: every file name
/// recorded anywhere in the chain, mapped to the content of its most recent
/// record (the last write for a given name wins).
pub open spec fn tree_of(commits: Seq<CommitView>) -> Map<Seq<char>, Seq<u8>>
    decreases commits.len(),
{
    if commits.len() == 0 {
        Map::empty()
    } else {
        tree_of(commits.drop_last()).insert(commits.last().name, commits.last().content)
    }
}

/// A payload name is accepted only when it stays strictly inside the working
/// tree: it is non-empty, names no sub-directory, and is not a dot path.
pub open spec fn valid_name(name: Seq<char>) -> bool {
    &&& 0 < name.len()
    &&& (forall|i: int| 0 <= i < name.len() ==> name[i] != '/' && name[i] != '\\')
    &&& name != seq!['.']
    &&& name != seq!['.', '.']
}

/// Every payload of a request must carry a valid name.
pub open spec fn valid_payloads(ps: Seq<PayloadView>) -> bool {
    forall|i: int| 0 <= i < ps.len() ==> #[trigger] valid_name(ps[i].name)
}

/// The mathematical images of a payload sequence.
pub open spec fn payload_views(s: Seq<FilePayload>) -> Seq<PayloadView> {
    s.map_values(|p: FilePayload| p@)
}

/// Decide whether a payload name stays strictly inside the working tree.
pub fn check_name(name: &String) -> (r: bool)
    ensures
        r == valid_name(name@),
{
    let s = name.as_str();
    let n = s.unicode_len();
    if n == 0 {
        proof {
            assert(!valid_name(name@));
        }
        return false;
    }
    let mut i: usize = 0;
    while i < n
        invariant
            n == s@.len(),
            s@ == name@,
            i <= n,
            forall|j: int| 0 <= j < i ==> s@[j] != '/' && s@[j] != '\\',
        decreases n - i,
    {
        let c = s.get_char(i);
        if c == '/' || c == '\\' {
            return false;
        }
        i += 1;
    }
    if n == 1 && s.get_char(0) == '.' {
        proof {
            assert(name@ =~= seq!['.']);
        }
        return false;
    }
    if n == 2 && s.get_char(0) == '.' && s.get_char(1) == '.' {
        proof {
            assert(name@ =~= seq!['.', '.']);
        }
        return false;
    }
    proof {
        assert(name@ != seq!['.']) by {
            if name@ == seq!['.'] {
                assert(name@.len() == 1 && name@[0] == '.');
            }
        }
        assert(name@ != seq!['.', '.']) by {
            if name@ == seq!['.', '.'] {
                assert(name@.len() == 2 && name@[0] == '.' && name@[1] == '.');
            }
        }
    }
    true
}

/// Decide whether every payload of a request carries a valid name.
pub fn check_payloads(ps: &Vec<FilePayload>) -> (r: bool)
    ensures
        r == valid_payloads(payload_views(ps@)),
{
    let mut i: usize = 0;
    while i < ps.len()
        invariant
            i <= ps@.len(),
            forall|j: int| 0 <= j < i ==> valid_name(#[trigger] ps@[j]@.name),
        decreases ps@.len() - i,
    {
        if !check_name(&ps[i].name) {
            proof {
                assert(payload_views(ps@)[i as int].name == ps@[i as int]@.name);
                assert(!valid_payloads(payload_views(ps@)));
            }
            return false;
        }
        i += 1;
    }
    proof {
        assert forall|j: int| 0 <= j < payload_views(ps@).len() implies #[trigger] valid_name(
            payload_views(ps@)[j].name,
        ) by {
            assert(payload_views(ps@)[j].name == ps@[j]@.name);
        }
    }
    true
}

/// Copy a byte vector.
pub fn copy_bytes(src: &Vec<u8>) -> (r: Vec<u8>)
    ensures
        r@ == src@,
{
    let mut out: Vec<u8> = Vec::new();
    let mut i: usize = 0;
    while i < src.len()
        invariant
            i <= src@.len(),
            out@ == src@.subrange(0, i as int),
        decreases src@.len() - i,
    {
        out.push(src[i]);
        i += 1;
    }
    proof {
        assert(out@ =~= src@);
    }
    out
}

impl Clone for FilePayload {
    /// Cloning a payload keeps its name and content.
    fn clone(&self) -> (r: Self)
        ensures
            r@ == self@,
    {
        FilePayload { name: self.name.clone(), content: copy_bytes(&self.content) }
    }
}

impl Clone for CommitRecord {
    /// Cloning a commit record keeps its message, name and content.
    fn clone(&self) -> (r: Self)
        ensures
            r@ == self@,
    {
        CommitRecord {
            message: self.message.clone(),
            name: self.name.clone(),
            content: copy_bytes(&self.content),
        }
    }
}

} // verus!
