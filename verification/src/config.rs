//! Per-invocation synchronization policy and the paths it is applied to.

use vstd::prelude::*;
use vstd::string::{StrSliceExecFns, StringExecFns};

verus! {

/// The pieces of a character sequence between its commas, in order. A
/// sequence without commas is one piece; every comma ends a piece, so an
/// empty sequence holds one empty piece and a trailing comma adds one.
pub open spec fn split_on_commas(s: Seq<char>) -> Seq<Seq<char>>
    decreases s.len(),
{
    if s.len() == 0 {
        seq![Seq::<char>::empty()]
    } else if s[0] == ',' {
        seq![Seq::<char>::empty()] + split_on_commas(s.drop_first())
    } else {
        let rest = split_on_commas(s.drop_first());
        seq![seq![s[0]] + rest[0]] + rest.drop_first()
    }
}

proof fn lemma_split_len(s: Seq<char>)
    ensures
        split_on_commas(s).len() >= 1,
    decreases s.len(),
{
    if s.len() != 0 {
        lemma_split_len(s.drop_first());
    }
}

proof fn lemma_split_no_comma(s: Seq<char>)
    requires
        forall|j: int| 0 <= j < s.len() ==> s[j] != ',',
    ensures
        split_on_commas(s) == seq![s],
    decreases s.len(),
{
    if s.len() == 0 {
        assert(split_on_commas(s) =~~= seq![s]);
    } else {
        lemma_split_no_comma(s.drop_first());
        lemma_split_len(s.drop_first());
        assert(seq![s[0]] + split_on_commas(s.drop_first())[0] =~= s);
        assert(split_on_commas(s) =~~= seq![s]);
    }
}

proof fn lemma_split_at_comma(s: Seq<char>, k: int)
    requires
        0 <= k < s.len(),
        s[k] == ',',
        forall|j: int| 0 <= j < k ==> s[j] != ',',
    ensures
        split_on_commas(s) == seq![s.take(k)] + split_on_commas(s.skip(k + 1)),
    decreases k,
{
    if k == 0 {
        assert(s.take(0) =~= Seq::<char>::empty());
        assert(s.drop_first() =~= s.skip(1));
        assert(split_on_commas(s) =~~= seq![s.take(0)] + split_on_commas(s.skip(1)));
    } else {
        let t = s.drop_first();
        lemma_split_at_comma(t, k - 1);
        lemma_split_len(t.skip(k));
        assert(t.take(k - 1) =~= s.subrange(1, k));
        assert(t.skip(k) =~= s.skip(k + 1));
        let rest = split_on_commas(t);
        assert(rest[0] == s.subrange(1, k));
        assert(seq![s[0]] + s.subrange(1, k) =~= s.take(k));
        assert(rest.drop_first() =~= split_on_commas(s.skip(k + 1)));
        assert(split_on_commas(s) =~~= seq![s.take(k)] + split_on_commas(s.skip(k + 1)));
    }
}

/// Splits a comma-separated pattern list into its tokens, in order.
pub fn split_patterns(s: &str) -> (r: Vec<String>)
    ensures
        r.deep_view() == split_on_commas(s@),
        r@.len() >= 1,
{
    let len = s.unicode_len();
    let mut r: Vec<String> = Vec::new();
    let mut start: usize = 0;
    let mut i: usize = 0;
    proof {
        assert(s@.skip(0) =~= s@);
    }
    while i < len
        invariant
            len == s@.len(),
            start <= i <= len,
            forall|j: int| start <= j < i ==> s@[j] != ',',
            split_on_commas(s@) == r.deep_view() + split_on_commas(s@.skip(start as int)),
        decreases len - i,
    {
        let c = s.get_char(i);
        if c == ',' {
            let piece = s.substring_char(start, i).to_owned();
            proof {
                let t = s@.skip(start as int);
                lemma_split_at_comma(t, i - start as int);
                assert(t.take(i - start as int) =~= s@.subrange(start as int, i as int));
                assert(t.skip(i - start as int + 1) =~= s@.skip(i + 1));
            }
            let ghost old_r = r.deep_view();
            r.push(piece);
            proof {
                assert(r.deep_view() =~~= old_r + seq![piece@]);
                assert(old_r + seq![piece@] + split_on_commas(s@.skip(i + 1))
                    =~~= old_r + (seq![piece@] + split_on_commas(s@.skip(i + 1))));
            }
            start = i + 1;
        }
        i += 1;
    }
    let piece = s.substring_char(start, len).to_owned();
    proof {
        let t = s@.skip(start as int);
        assert(forall|j: int| 0 <= j < t.len() ==> t[j] == s@[j + start]);
        lemma_split_no_comma(t);
        assert(t =~= s@.subrange(start as int, len as int));
    }
    let ghost old_r = r.deep_view();
    r.push(piece);
    proof {
        assert(r.deep_view() =~~= old_r + seq![piece@]);
        assert(split_on_commas(s@) =~~= r.deep_view());
    }
    r
}

/// Immutable per-invocation policy: the source and destination roots, the
/// three behaviour flags, and the ordered exclusion patterns (regex sources,
/// each matched anchored against a bare entry name).
pub struct Args {
    pub src_path: String,
    pub dest_path: String,
    pub recursive: bool,
    pub force: bool,
    pub update: bool,
    pub exclude_patterns: Vec<String>,
}

impl Args {
    /// Joins a directory path and an entry name with a separator.
    pub fn create_path(&self, path: &str, name: &str) -> (r: String)
        ensures
            r@ == path@ + "/"@ + name@,
    {
        let mut r = String::new();
        r.append(path);
        r.append("/");
        r.append(name);
        r
    }

    /// The path of the entry called `name` inside the source root.
    pub fn create_src_path(&self, name: &str) -> (r: String)
        ensures
            r@ == self.src_path@ + "/"@ + name@,
    {
        self.create_path(self.src_path.as_str(), name)
    }

    /// The path of the entry called `name` inside the destination root.
    pub fn create_dest_path(&self, name: &str) -> (r: String)
        ensures
            r@ == self.dest_path@ + "/"@ + name@,
    {
        self.create_path(self.dest_path.as_str(), name)
    }

    /// The configuration for the recursive descent into the subdirectory
    /// called `name`: the paths point at the child pair, every policy field
    /// is carried over verbatim.
    pub fn derive_child(&self, name: &str) -> (c: Args)
        ensures
            c.src_path@ == self.src_path@ + "/"@ + name@,
            c.dest_path@ == self.dest_path@ + "/"@ + name@,
            c.recursive == self.recursive,
            c.force == self.force,
            c.update == self.update,
            c.exclude_patterns.deep_view() == self.exclude_patterns.deep_view(),
    {
        let pats = self.exclude_patterns.clone();
        proof {
            assert forall|i: int| 0 <= i < self.exclude_patterns@.len()
                implies pats@[i]@ == self.exclude_patterns@[i]@ by {
                assert(cloned::<String>(self.exclude_patterns[i], pats[i]));
            }
            assert(pats.deep_view() =~~= self.exclude_patterns.deep_view());
        }
        Args {
            src_path: self.create_src_path(name),
            dest_path: self.create_dest_path(name),
            recursive: self.recursive,
            force: self.force,
            update: self.update,
            exclude_patterns: pats,
        }
    }
}

} // verus!
