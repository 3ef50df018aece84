use vstd::prelude::*;

use crate::oid::{bytes_of_hex, hex_of, is_hex_text, lemma_hex_round_trip, Oid, OID_LEN};
use crate::text::{chars_of, push_char};

verus! {

/// Key of the note line that names the remote branch.
pub open spec fn branch_key() -> Seq<char> {
    "remote-branch: "@
}

/// Key of the note line that pins a remote commit.
pub open spec fn commit_key() -> Seq<char> {
    "remote-commit: "@
}

pub open spec fn newline_free(t: Seq<char>) -> bool {
    forall|i: int| 0 <= i < t.len() ==> t[i] != '\n'
}

/// The note text of a published commit: the branch line, then the pinned commit
/// line when there is one, each ended by a newline.
pub open spec fn note_text(branch: Seq<char>, commit: Option<Oid>) -> Seq<char> {
    branch_key() + branch + seq!['\n'] + match commit {
        Some(c) => commit_key() + hex_of(c@) + seq!['\n'],
        None => Seq::empty(),
    }
}

/// What a published commit records: the remote branch it is published as and,
/// when pinned, the remote commit that stands for it.
#[derive(Debug)]
pub struct CommitMetadata {
    pub remote_branch_name: String,
    pub remote_commit: Option<Oid>,
}

/// Why a note could not be read as commit metadata.
#[derive(Clone, Copy, Debug, PartialEq, Eq, Structural)]
pub enum MetadataError {
    /// The note does not start with the remote branch line.
    MissingRemoteBranch,
    /// The note starts with the remote branch line but is not a metadata note.
    Malformed,
}

/// Where the parts of a note text stand.
pub proof fn lemma_note_text_shape(b: Seq<char>, c: Option<Oid>)
    ensures
        ({
            let t = note_text(b, c);
            let n = branch_key().len() + b.len() as int;
            &&& branch_key().len() == 15
            &&& commit_key().len() == 15
            &&& t.subrange(0, 15) == branch_key()
            &&& t.subrange(15, n) == b
            &&& t[n] == '\n'
            &&& c is None ==> t.len() == n + 1
            &&& c is Some ==> {
                &&& t.len() == n + 1 + 15 + 2 * OID_LEN + 1
                &&& t.subrange(n + 1, n + 16) == commit_key()
                &&& t.subrange(n + 16, n + 16 + 2 * OID_LEN) == hex_of(c->0@)
                &&& t[t.len() - 1] == '\n'
            }
        }),
{
    reveal_strlit("remote-branch: ");
    reveal_strlit("remote-commit: ");
    let t = note_text(b, c);
    let n = 15 + b.len() as int;
    assert(t.subrange(0, 15) =~= branch_key());
    assert(t.subrange(15, n) =~= b);
    if let Some(o) = c {
        lemma_hex_round_trip(o@);
        assert(o@.len() == OID_LEN);
        assert(t.subrange(n + 1, n + 16) =~= commit_key());
        assert(t.subrange(n + 16, n + 16 + 2 * OID_LEN) =~= hex_of(o@));
    }
}

/// Whether a text is the note of some metadata.
pub open spec fn reads_as_metadata(t: Seq<char>) -> bool {
    exists|b: Seq<char>, c: Option<Oid>| newline_free(b) && #[trigger] note_text(b, c) == t
}

/// What a text shows when it is the note of metadata with branch name of
/// length `n` and pinned commit `c`: where each part stands, that the name
/// has no newline, and that the pinned commit is written as its digits.
pub open spec fn note_parts(s: Seq<char>, n: int, c: Option<Oid>) -> bool {
    let e = 15 + n;
    &&& s.len() > e
    &&& s.subrange(0, 15) == branch_key()
    &&& newline_free(s.subrange(15, e))
    &&& s[e] == '\n'
    &&& c is None ==> s.len() == e + 1
    &&& c is Some ==> {
        let h = s.subrange(e + 16, e + 16 + 2 * OID_LEN);
        &&& s.len() == e + 1 + 15 + 2 * OID_LEN + 1
        &&& s.subrange(e + 1, e + 16) == commit_key()
        &&& h == hex_of(c->0@)
        &&& is_hex_text(h)
        &&& bytes_of_hex(h) == c->0@
        &&& s[s.len() - 1] == '\n'
    }
}

/// Every note text shows its parts.
proof fn lemma_note_of(s: Seq<char>)
    ensures
        forall|b: Seq<char>, c: Option<Oid>|
            newline_free(b) && #[trigger] note_text(b, c) == s ==> note_parts(s, b.len() as int, c),
{
    assert forall|b: Seq<char>, c: Option<Oid>|
        newline_free(b) && #[trigger] note_text(b, c) == s implies note_parts(s, b.len() as int, c) by {
        lemma_note_text_shape(b, c);
        if let Some(o) = c {
            lemma_hex_round_trip(o@);
        }
    }
}

/// A note names its metadata: two pieces of metadata with one-line branch
/// names and the same note text are the same. So reading the note that
/// `to_note` writes gives back what was written, wherever the note is carried.
pub proof fn lemma_note_round_trip(b1: Seq<char>, c1: Option<Oid>, b2: Seq<char>, c2: Option<Oid>)
    requires
        newline_free(b1),
        newline_free(b2),
        note_text(b1, c1) == note_text(b2, c2),
    ensures
        b1 == b2,
        c1 == c2,
{
    lemma_note_text_shape(b1, c1);
    lemma_note_text_shape(b2, c2);
    let t = note_text(b1, c1);
    if b1.len() < b2.len() {
        assert(t[15 + b1.len() as int] == '\n');
        assert(t.subrange(15, 15 + b2.len() as int)[b1.len() as int] == b2[b1.len() as int]);
    } else if b2.len() < b1.len() {
        assert(t[15 + b2.len() as int] == '\n');
        assert(t.subrange(15, 15 + b1.len() as int)[b2.len() as int] == b1[b2.len() as int]);
    }
    assert(b1 =~= b2);
    if let (Some(o1), Some(o2)) = (c1, c2) {
        lemma_hex_round_trip(o1@);
        lemma_hex_round_trip(o2@);
        assert(o1.bytes =~= o2.bytes);
    }
}

/// Whether `p` stands in `c` from position `pos` on.
fn occurs_at(c: &Vec<char>, pos: usize, p: &Vec<char>) -> (r: bool)
    ensures
        r == (pos + p@.len() <= c@.len() && c@.subrange(pos as int, pos + p@.len()) == p@),
{
    if pos > c.len() || p.len() > c.len() - pos {
        return false;
    }
    let n = c.len();
    let mut i: usize = 0;
    while i < p.len()
        invariant
            n == c@.len(),
            pos + p@.len() <= c@.len(),
            i <= p@.len(),
            forall|j: int| 0 <= j < i ==> c@[pos + j] == p@[j],
        decreases p@.len() - i,
    {
        if c[pos + i] != p[i] {
            assert(c@.subrange(pos as int, pos + p@.len())[i as int] != p@[i as int]);
            return false;
        }
        i = i + 1;
    }
    assert(c@.subrange(pos as int, pos + p@.len()) =~= p@);
    true
}

impl CommitMetadata {
    /// A branch name can stand on one line of the note.
    pub open spec fn wf(&self) -> bool {
        newline_free(self.remote_branch_name@)
    }

    pub open spec fn text(&self) -> Seq<char> {
        note_text(self.remote_branch_name@, self.remote_commit)
    }

    pub fn new(remote_branch_name: String, remote_commit: Option<Oid>) -> (r: CommitMetadata)
        ensures
            r.remote_branch_name == remote_branch_name,
            r.remote_commit == remote_commit,
    {
        CommitMetadata { remote_branch_name, remote_commit }
    }

    /// A copy of this metadata.
    pub fn duplicate(&self) -> (r: CommitMetadata)
        ensures
            r == *self,
    {
        CommitMetadata {
            remote_branch_name: self.remote_branch_name.clone(),
            remote_commit: self.remote_commit,
        }
    }

    /// The note text that records this metadata.
    pub fn to_note(&self) -> (r: String)
        ensures
            r@ == self.text(),
    {
        let mut r = String::new();
        r.append("remote-branch: ");
        r.append(self.remote_branch_name.as_str());
        r.append("\n");
        match &self.remote_commit {
            Some(c) => {
                r.append("remote-commit: ");
                let h = c.to_hex();
                r.append(h.as_str());
                r.append("\n");
            },
            None => {},
        }
        proof {
            reveal_strlit("\n");
            assert(r@ =~= self.text());
        }
        r
    }

    /// A commit message with this metadata written below it, for history
    /// that carries the metadata in the message rather than in a note.
    pub fn message_with(&self, message: &str) -> (r: String)
        ensures
            r@ == message@ + "\nmeta:\n"@ + self.text(),
    {
        let mut r = String::new();
        r.append(message);
        r.append("\nmeta:\n");
        let note = self.to_note();
        r.append(note.as_str());
        assert(r@ =~= message@ + "\nmeta:\n"@ + self.text());
        r
    }

    /// Reads a note written by `to_note`. It fails on any text that is not
    /// the note of some metadata.
    pub fn parse(s: &str) -> (r: Result<CommitMetadata, MetadataError>)
        ensures
            r is Ok ==> r->Ok_0.wf() && r->Ok_0.text() == s@,
            r is Err <==> !reads_as_metadata(s@),
            r == Err::<CommitMetadata, MetadataError>(MetadataError::MissingRemoteBranch) <==> !(
            s@.len() >= branch_key().len() && s@.subrange(0, branch_key().len() as int)
                == branch_key()),
    {
        proof {
            reveal_strlit("remote-branch: ");
            reveal_strlit("remote-commit: ");
            lemma_note_of(s@);
        }
        let c = chars_of(s);
        let key = chars_of("remote-branch: ");
        let n = c.len();
        if !occurs_at(&c, 0, &key) {
            return Err(MetadataError::MissingRemoteBranch);
        }
        let kl = key.len();
        let mut k = kl;
        while k < n && c[k] != '\n'
            invariant
                c@ == s@,
                n == c@.len(),
                kl == 15,
                kl <= k <= n,
                forall|j: int| kl <= j < k ==> c@[j] != '\n',
            decreases n - k,
        {
            k = k + 1;
        }
        if k == n {
            return Err(MetadataError::Malformed);
        }
        let mut name = String::new();
        let mut j = kl;
        while j < k
            invariant
                c@ == s@,
                n == c@.len(),
                kl <= j <= k < n,
                name@ == c@.subrange(kl as int, j as int),
            decreases k - j,
        {
            push_char(&mut name, c[j]);
            proof {
                assert(name@ =~= c@.subrange(kl as int, j + 1));
            }
            j = j + 1;
        }
        let ghost nm = name@;
        proof {
            // Any note that gives this text has its name end at the first newline.
            assert forall|b: Seq<char>, co: Option<Oid>|
                newline_free(b) && #[trigger] note_text(b, co) == s@ implies b.len() == k - 15 by {
                if b.len() > k - 15 {
                    assert(s@.subrange(15, 15 + b.len() as int)[k - 15int] == s@[k as int]);
                }
            }
        }
        let rest = k + 1;
        if rest == n {
            let m = CommitMetadata { remote_branch_name: name, remote_commit: None };
            proof {
                lemma_note_text_shape(nm, None);
                assert(m.text() =~= s@);
            }
            return Ok(m);
        }
        let ckey = chars_of("remote-commit: ");
        if n - rest != ckey.len() + 2 * OID_LEN + 1 || !occurs_at(&c, rest, &ckey) || c[n - 1]
            != '\n' {
            return Err(MetadataError::Malformed);
        }
        let start = rest + ckey.len();
        match Oid::from_hex_at(&c, start) {
            Some(o) => {
                let h = o.to_hex();
                let hc = chars_of(h.as_str());
                if occurs_at(&c, start, &hc) {
                    let m = CommitMetadata { remote_branch_name: name, remote_commit: Some(o) };
                    proof {
                        lemma_note_text_shape(nm, Some(o));
                        assert(m.text() =~= s@);
                    }
                    Ok(m)
                } else {
                    proof {
                        assert forall|b: Seq<char>, co: Option<Oid>|
                            newline_free(b) implies #[trigger] note_text(b, co) != s@ by {
                            if note_text(b, co) == s@ {
                                assert(o@ == co->0@);
                            }
                        }
                    }
                    Err(MetadataError::Malformed)
                }
            },
            None => Err(MetadataError::Malformed),
        }
    }
}

} // verus!
