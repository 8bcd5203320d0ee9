use vstd::prelude::*;

use crate::model::{
    commit_views, make_message, payload_views, planned, planned_commit, tree_of, CommitRecord,
    CommitView, FilePayload,
};

verus! {

/// A local working copy's history: a chain of commit records, oldest first.
/// The chain's last record is the branch tip.  A fresh repository has an
/// empty chain; a cloned repository starts with the remote's chain.
pub struct LocalRepo {
    pub commits: Vec<CommitRecord>,
}

impl View for LocalRepo {
    type V = Seq<CommitView>;

    open spec fn view(&self) -> Seq<CommitView> {
        commit_views(self.commits@)
    }
}

impl LocalRepo {
    /// A brand-new repository with no history.
    pub fn init() -> (r: LocalRepo)
        ensures
            r@ == Seq::<CommitView>::empty(),
    {
        let r = LocalRepo { commits: Vec::new() };
        proof {
            assert(r@ =~= Seq::<CommitView>::empty());
        }
        r
    }

    /// The number of commits in the history.
    pub fn len(&self) -> (n: usize)
        ensures
            n == self@.len(),
    {
        self.commits.len()
    }
}

/// Record one payload as a commit on top of the current history: the commit's
/// message is `"Add {name}"`, or `"Initial commit: {name}"` when the history
/// was empty and this is the true root commit.
pub fn commit_payload(repo: &mut LocalRepo, payload: &FilePayload)
    ensures
        final(repo)@ == old(repo)@.push(
            planned_commit(old(repo)@.len() as int, 0, payload@),
        ),
{
    let is_root = repo.commits.len() == 0;
    let message = make_message(is_root, &payload.name);
    let record = CommitRecord {
        message,
        name: payload.name.clone(),
        content: crate::model::copy_bytes(&payload.content),
    };
    repo.commits.push(record);
    proof {
        assert(final(repo)@ =~= old(repo)@.push(
            planned_commit(old(repo)@.len() as int, 0, payload@),
        ));
    }
}

/// Apply an ordered payload sequence to the history: strictly in input order,
/// one commit per payload, each chained onto the previous one (the record at
/// one index has the record before it as its parent).  An empty sequence
/// leaves the history unchanged.
pub fn apply_payloads(repo: &mut LocalRepo, payloads: &Vec<FilePayload>)
    ensures
        final(repo)@ == old(repo)@ + planned(
            old(repo)@.len() as int,
            payload_views(payloads@),
        ),
{
    let ghost base: int = repo@.len() as int;
    let ghost views = payload_views(payloads@);
    let mut i: usize = 0;
    while i < payloads.len()
        invariant
            i <= payloads@.len(),
            base == old(repo)@.len(),
            views == payload_views(payloads@),
            repo@ == old(repo)@ + planned(base, views).take(i as int),
        decreases payloads@.len() - i,
    {
        let ghost pre = repo@;
        commit_payload(repo, &payloads[i]);
        proof {
            assert(views[i as int] == payloads@[i as int]@);
            assert(pre.len() == base + i);
            assert(planned_commit(pre.len() as int, 0, payloads@[i as int]@)
                == planned_commit(base, i as int, views[i as int]));
            assert(planned(base, views).take(i + 1) =~= planned(base, views).take(i as int).push(
                planned(base, views)[i as int],
            ));
            assert(repo@ =~= old(repo)@ + planned(base, views).take(i + 1));
        }
        i += 1;
    }
    proof {
        assert(planned(base, views).take(payloads@.len() as int) =~= planned(base, views));
    }
}

/// Find the most recent record for `name` among the first `upto` commits of
/// a chain: the commit whose content is what the tree snapshot captured by
/// the commit at `upto - 1` holds under `name`; `None` exactly when that
/// snapshot does not hold the name at all.
pub fn latest_index_for(commits: &Vec<CommitRecord>, upto: usize, name: &String) -> (r: Option<
    usize,
>)
    requires
        upto <= commits@.len(),
    ensures
        ({
            let snapshot = tree_of(commit_views(commits@).take(upto as int));
            match r {
                Some(i) => {
                    &&& i < upto
                    &&& commits@[i as int]@.name == name@
                    &&& (forall|j: int| i < j < upto ==> #[trigger] commits@[j]@.name != name@)
                    &&& snapshot.contains_key(name@)
                    &&& snapshot[name@] == commits@[i as int]@.content
                },
                None => {
                    &&& (forall|j: int| 0 <= j < upto ==> #[trigger] commits@[j]@.name != name@)
                    &&& !snapshot.contains_key(name@)
                },
            }
        }),
{
    let ghost chain = commit_views(commits@).take(upto as int);
    let mut k: usize = upto;
    while k > 0
        invariant
            k <= upto <= commits@.len(),
            chain == commit_views(commits@).take(upto as int),
            forall|j: int| k <= j < upto ==> #[trigger] commits@[j]@.name != name@,
        decreases k,
    {
        k -= 1;
        if commits[k].name.eq(name) {
            proof {
                assert(chain.len() == upto as int);
                assert(chain[k as int] == commits@[k as int]@);
                assert forall|j: int| k < j < chain.len() implies (#[trigger] chain[j]).name
                    != chain[k as int].name by {
                    assert(chain[j] == commit_views(commits@)[j]);
                    assert(chain[j] == commits@[j]@);
                }
                lemma_tree_of_latest(chain, k as int);
            }
            return Some(k);
        }
    }
    proof {
        assert(chain.len() == upto as int);
        assert forall|j: int| 0 <= j < chain.len() implies (#[trigger] chain[j]).name != name@ by {
            assert(chain[j] == commit_views(commits@)[j]);
            assert(chain[j] == commits@[j]@);
        }
        lemma_tree_of_absent(chain, name@);
    }
    None
}

/// The tree snapshot of a chain maps a name to the content of the chain's
/// most recent record for that name: within one request the last write for a
/// given name wins.
pub proof fn lemma_tree_of_latest(commits: Seq<CommitView>, i: int)
    requires
        0 <= i < commits.len(),
        forall|j: int| i < j < commits.len() ==> #[trigger] commits[j].name != commits[i].name,
    ensures
        tree_of(commits).contains_key(commits[i].name),
        tree_of(commits)[commits[i].name] == commits[i].content,
    decreases commits.len(),
{
    if i == commits.len() - 1 {
    } else {
        lemma_tree_of_latest(commits.drop_last(), i);
    }
}

/// A name recorded nowhere in a chain is absent from its tree snapshot.
pub proof fn lemma_tree_of_absent(commits: Seq<CommitView>, name: Seq<char>)
    requires
        forall|j: int| 0 <= j < commits.len() ==> #[trigger] commits[j].name != name,
    ensures
        !tree_of(commits).contains_key(name),
    decreases commits.len(),
{
    if commits.len() > 0 {
        lemma_tree_of_absent(commits.drop_last(), name);
    }
}

} // verus!
