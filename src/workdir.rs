use vstd::prelude::*;
use vstd::string::StrSliceExecFns;
use vstd::string::StringExecFns;

use crate::error::ShellError;
use crate::path::{directory_spec, is_dot, is_dot_dot, require_directory, PathKind};

verus! {

/// The end of the run of non-separator characters that starts at `i`.
pub open spec fn segment_end(s: Seq<char>, i: int) -> int
    decreases s.len() - i,
{
    if i < 0 || i >= s.len() || s[i] == '/' {
        i
    } else {
        segment_end(s, i + 1)
    }
}

/// The non-empty components of `s[i..]`, split at separators, in order.
pub open spec fn segments_from(s: Seq<char>, i: int) -> Seq<Seq<char>>
    decreases s.len() - i,
{
    if i < 0 || i >= s.len() {
        Seq::empty()
    } else if s[i] == '/' {
        segments_from(s, i + 1)
    } else {
        let e = segment_end(s, i);
        if e <= i || e > s.len() {
            Seq::empty()
        } else {
            seq![s.subrange(i, e)] + segments_from(s, e)
        }
    }
}

/// One component applied to a directory: `.` stays, `..` goes up (the root
/// is its own parent), any other name goes down into it.
pub open spec fn step(base: Seq<Seq<char>>, seg: Seq<char>) -> Seq<Seq<char>> {
    if is_dot(seg) {
        base
    } else if is_dot_dot(seg) {
        if base.len() > 0 {
            base.drop_last()
        } else {
            base
        }
    } else {
        base.push(seg)
    }
}

pub open spec fn apply(base: Seq<Seq<char>>, segs: Seq<Seq<char>>) -> Seq<Seq<char>>
    decreases segs.len(),
{
    if segs.len() == 0 {
        base
    } else {
        apply(step(base, segs[0]), segs.drop_first())
    }
}

/// The absolute location, as components below the root, that `path` names
/// from the directory `base`: an absolute path starts from the root.
pub open spec fn resolve_spec(base: Seq<Seq<char>>, path: Seq<char>) -> Seq<Seq<char>> {
    let start = if path.len() > 0 && path[0] == '/' {
        Seq::empty()
    } else {
        base
    };
    apply(start, segments_from(path, 0))
}

pub open spec fn render_from(comps: Seq<Seq<char>>, i: int) -> Seq<char>
    decreases comps.len() - i,
{
    if i < 0 || i >= comps.len() {
        Seq::empty()
    } else {
        seq!['/'] + comps[i] + render_from(comps, i + 1)
    }
}

/// The absolute path text of a location.
pub open spec fn render(comps: Seq<Seq<char>>) -> Seq<char> {
    if comps.len() == 0 {
        seq!['/']
    } else {
        render_from(comps, 0)
    }
}

/// A name that can stand as one component of a location.
pub open spec fn valid_component(c: Seq<char>) -> bool {
    c.len() > 0 && !is_dot(c) && !is_dot_dot(c) && forall|k: int| 0 <= k < c.len() ==> c[k] != '/'
}

/// A current directory kept as an explicit value, resolved lexically.
pub struct WorkingDirectory {
    components: Vec<String>,
}

impl View for WorkingDirectory {
    type V = Seq<Seq<char>>;

    closed spec fn view(&self) -> Seq<Seq<char>> {
        self.components@.map_values(|c: String| c@)
    }
}

impl WorkingDirectory {
    pub open spec fn wf(&self) -> bool {
        forall|i: int| 0 <= i < self@.len() ==> valid_component(#[trigger] self@[i])
    }

    /// The root directory.
    pub fn root() -> (r: WorkingDirectory)
        ensures
            r@ == Seq::<Seq<char>>::empty(),
            r.wf(),
    {
        let r = WorkingDirectory { components: Vec::new() };
        assert(r@ =~= Seq::<Seq<char>>::empty());
        r
    }

    /// The absolute path of the directory.
    pub fn current_directory(&self) -> (r: String)
        ensures
            r@ == render(self@),
    {
        let n = self.components.len();
        proof {
            reveal_strlit("/");
        }
        if n == 0 {
            return String::from_str("/");
        }
        let mut r = String::new();
        let mut i: usize = 0;
        while i < n
            invariant
                n == self.components@.len(),
                n == self@.len(),
                n > 0,
                i <= n,
                r@ + render_from(self@, i as int) == render_from(self@, 0),
            decreases n - i,
        {
            let ghost prev = r@;
            r.append("/");
            r.append(self.components[i].as_str());
            proof {
                reveal_strlit("/");
                assert(self@[i as int] == self.components@[i as int]@);
                assert(r@ == prev + seq!['/'] + self@[i as int]);
                assert(render_from(self@, i as int) == seq!['/'] + self@[i as int] + render_from(self@, i + 1));
                assert(r@ + render_from(self@, i + 1) =~= prev + render_from(self@, i as int));
            }
            i = i + 1;
        }
        assert(r@ =~= r@ + render_from(self@, n as int));
        r
    }

    /// Moves to `path`, whose probe found a `target`: fails with `NotFound` or
    /// `NotADirectory` and stays, or moves to the location `path` names.
    pub fn change_directory(&mut self, path: &str, target: PathKind) -> (r: Result<(), ShellError>)
        requires
            old(self).wf(),
        ensures
            r == directory_spec(target),
            final(self).wf(),
            r is Ok ==> final(self)@ == resolve_spec(old(self)@, path@),
            r is Err ==> final(self)@ == old(self)@,
    {
        let checked = require_directory(target);
        if checked.is_err() {
            return checked;
        }
        let n = path.unicode_len();
        let ghost s = path@;
        proof {
            reveal_strlit("/");
        }
        if n > 0 && path.get_char(0) == '/' {
            self.components = Vec::new();
            assert(self@ =~= Seq::<Seq<char>>::empty());
        }
        assert(apply(self@, segments_from(s, 0)) == resolve_spec(old(self)@, s));
        let mut i: usize = 0;
        while i < n
            invariant
                n == s.len(),
                s == path@,
                i <= n,
                self.wf(),
                apply(self@, segments_from(s, i as int)) == resolve_spec(old(self)@, s),
            decreases n - i,
        {
            if path.get_char(i) == '/' {
                i = i + 1;
            } else {
                let mut e: usize = i + 1;
                while e < n && path.get_char(e) != '/'
                    invariant
                        i < e <= n,
                        n == s.len(),
                        s == path@,
                        s[i as int] != '/',
                        segment_end(s, i as int) == segment_end(s, e as int),
                        forall|k: int| i <= k < e ==> s[k] != '/',
                    decreases n - e,
                {
                    e = e + 1;
                }
                assert(segment_end(s, e as int) == e as int);
                let seg = path.substring_char(i, e);
                let ghost sv = s.subrange(i as int, e as int);
                assert(seg@ == sv);
                assert(segments_from(s, i as int) == seq![sv] + segments_from(s, e as int));
                assert((seq![sv] + segments_from(s, e as int)).drop_first() =~= segments_from(s, e as int));
                let len = e - i;
                if len == 1 && seg.get_char(0) == '.' {
                    assert(is_dot(sv));
                } else if len == 2 && seg.get_char(0) == '.' && seg.get_char(1) == '.' {
                    assert(is_dot_dot(sv));
                    assert(!is_dot(sv));
                    if self.components.len() > 0 {
                        let ghost before = self@;
                        self.components.pop();
                        assert(self@ =~= before.drop_last());
                    }
                } else {
                    assert(!is_dot(sv)) by {
                        if is_dot(sv) {
                            assert(sv[0] == s[i as int]);
                        }
                    }
                    assert(!is_dot_dot(sv)) by {
                        if is_dot_dot(sv) {
                            assert(sv[0] == s[i as int]);
                            assert(sv[1] == s[i + 1]);
                        }
                    }
                    let ghost before = self@;
                    self.components.push(seg.to_owned());
                    assert(self@ =~= before.push(sv));
                    assert(valid_component(sv));
                }
                i = e;
            }
        }
        Ok(())
    }
}

proof fn lemma_segment_end_plain(s: Seq<char>, i: int)
    requires
        0 <= i <= s.len(),
        forall|k: int| i <= k < s.len() ==> s[k] != '/',
    ensures
        segment_end(s, i) == s.len(),
    decreases s.len() - i,
{
    if i < s.len() {
        lemma_segment_end_plain(s, i + 1);
    }
}

proof fn lemma_single_segment(c: Seq<char>)
    requires
        c.len() > 0,
        forall|k: int| 0 <= k < c.len() ==> c[k] != '/',
    ensures
        segments_from(c, 0) == seq![c],
{
    lemma_segment_end_plain(c, 0);
    assert(c.subrange(0, c.len() as int) =~= c);
    assert(seq![c] + segments_from(c, c.len() as int) =~= seq![c]);
}

/// Changing into a child directory by its name descends into it, and `..`
/// from there returns to the directory it started from.
pub proof fn lemma_child_then_parent(base: Seq<Seq<char>>, child: Seq<char>)
    requires
        valid_component(child),
    ensures
        resolve_spec(base, child) == base.push(child),
        resolve_spec(resolve_spec(base, child), seq!['.', '.']) == base,
{
    lemma_single_segment(child);
    assert(seq![child].drop_first() =~= Seq::<Seq<char>>::empty());
    assert(!is_dot(child) && !is_dot_dot(child));
    assert(child[0] != '/');
    assert(step(base, child) == base.push(child));
    assert(apply(base, seq![child]) == apply(base.push(child), Seq::<Seq<char>>::empty()));
    assert(resolve_spec(base, child) == base.push(child));
    let up = seq!['.', '.'];
    lemma_single_segment(up);
    assert(seq![up].drop_first() =~= Seq::<Seq<char>>::empty());
    assert(is_dot_dot(up));
    assert(!is_dot(up)) by {
        if is_dot(up) {
            assert(up.len() == 1);
        }
    }
    let down = base.push(child);
    assert(down.drop_last() =~= base);
    assert(step(down, up) == base);
    assert(apply(down, seq![up]) == apply(base, Seq::<Seq<char>>::empty()));
    assert(up[0] != '/');
}

} // verus!
