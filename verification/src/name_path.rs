//! Classification name paths such as `/Brands/Armani`.
use vstd::prelude::*;
use crate::text::push_char;
use vstd::string::StringExecFns;

verus! {

/// The state of a left-to-right scan of a path string: the nodes already
/// completed and the node currently being read.
pub open spec fn scan(s: Seq<char>) -> (Seq<Seq<char>>, Seq<char>)
    decreases s.len(),
{
    if s.len() == 0 {
        (Seq::empty(), Seq::empty())
    } else {
        let (done, cur) = scan(s.drop_last());
        if s.last() == '/' {
            (flush(done, cur), Seq::empty())
        } else {
            (done, cur.push(s.last()))
        }
    }
}

/// Ends the node being read: an empty node is dropped.
pub open spec fn flush(done: Seq<Seq<char>>, cur: Seq<char>) -> Seq<Seq<char>> {
    if cur.len() == 0 {
        done
    } else {
        done.push(cur)
    }
}

/// The nodes of a path string: its `/`-separated pieces, empty ones dropped.
pub open spec fn parse_nodes(s: Seq<char>) -> Seq<Seq<char>> {
    flush(scan(s).0, scan(s).1)
}

/// The textual form of a path: every node preceded by `/`.
pub open spec fn render(path: Seq<Seq<char>>) -> Seq<char>
    decreases path.len(),
{
    if path.len() == 0 {
        Seq::empty()
    } else {
        render(path.drop_last()) + seq!['/'] + path.last()
    }
}

/// A node that survives a print and parse: non-empty and free of `/`.
pub open spec fn is_node(n: Seq<char>) -> bool {
    n.len() > 0 && !n.contains('/')
}

/// Every node of the path is a proper node.
pub open spec fn all_nodes(path: Seq<Seq<char>>) -> bool {
    forall|i: int| 0 <= i < path.len() ==> is_node(#[trigger] path[i])
}

/// Path of a classification from the root classification down to it.
pub struct ClassificationNamePath {
    path: Vec<String>,
}

impl View for ClassificationNamePath {
    type V = Seq<Seq<char>>;

    closed spec fn view(&self) -> Seq<Seq<char>> {
        self.path@.map_values(|s: String| s@)
    }
}

impl ClassificationNamePath {
    /// Builds a path from its nodes, root first.
    pub fn from_path(path: Vec<String>) -> (r: Self)
        ensures
            r@ == path@.map_values(|s: String| s@),
    {
        ClassificationNamePath { path }
    }

    /// Parses `/a/b/c`; separators in a row and at the ends are ignored.
    pub fn from_str(s: &str) -> (r: Self)
        requires
            parse_nodes(s@).len() > 0,
        ensures
            r@ == parse_nodes(s@),
    {
        let mut done: Vec<String> = Vec::new();
        let mut cur = String::new();
        let mut cur_empty = true;
        let ghost text = s@;
        for c in it: s.chars()
            invariant
                it.seq() == text,
                text == s@,
                scan(text.take(it.index())) == (done@.map_values(|x: String| x@), cur@),
                cur_empty == (cur@.len() == 0),
        {
            assert(text.take(it.index() + 1).drop_last() == text.take(it.index()));
            assert(text.take(it.index() + 1).last() == c);
            if c == '/' {
                if !cur_empty {
                    let ghost before = done@;
                    done.push(cur);
                    assert(done@.map_values(|x: String| x@) == before.map_values(|x: String| x@).push(cur@));
                }
                cur = String::new();
                cur_empty = true;
            } else {
                push_char(&mut cur, c);
                cur_empty = false;
            }
        }
        assert(text.take(text.len() as int) == text);
        if !cur_empty {
            let ghost before = done@;
            done.push(cur);
            assert(done@.map_values(|x: String| x@) == before.map_values(|x: String| x@).push(cur@));
        }
        ClassificationNamePath { path: done }
    }

    /// The nodes of the path, root first.
    pub fn nodes(&self) -> (r: &[String])
        ensures
            r@.map_values(|x: String| x@) == self@,
    {
        self.path.as_slice()
    }

    /// Whether `s` names at least one node, which `from_str` needs.
    pub fn has_nodes(s: &str) -> (r: bool)
        ensures
            r == (parse_nodes(s@).len() > 0),
    {
        let mut open = false;
        let mut found = false;
        let ghost text = s@;
        for c in it: s.chars()
            invariant
                it.seq() == text,
                text == s@,
                open == (scan(text.take(it.index())).1.len() > 0),
                found == (scan(text.take(it.index())).0.len() > 0),
        {
            assert(text.take(it.index() + 1).drop_last() == text.take(it.index()));
            assert(text.take(it.index() + 1).last() == c);
            if c == '/' {
                if open {
                    found = true;
                }
                open = false;
            } else {
                open = true;
            }
        }
        assert(text.take(text.len() as int) == text);
        found || open
    }

    /// The textual form `/a/b/c` of the path.
    pub fn to_string(&self) -> (r: String)
        ensures
            r@ == render(self@),
    {
        let mut res = String::new();
        let mut i: usize = 0;
        let n = self.path.len();
        while i < n
            invariant
                n == self.path@.len(),
                i <= n,
                res@ == render(self@.take(i as int)),
            decreases n - i,
        {
            proof {
                reveal_strlit("/");
            }
            res.append("/");
            res.append(self.path[i].as_str());
            assert(self@[i as int] == self.path@[i as int]@);
            assert(self@.take(i + 1).drop_last() == self@.take(i as int));
            i = i + 1;
        }
        assert(self@.take(n as int) == self@);
        res
    }

    /// The name of the classification itself: the last node.
    pub fn name(&self) -> (r: &str)
        requires
            self@.len() > 0,
        ensures
            r@ == self@.last(),
    {
        self.path[self.path.len() - 1].as_str()
    }

    /// The path of the parent classification, if there is one.
    pub fn parent(&self) -> (r: Option<ClassificationNamePath>)
        requires
            self@.len() > 0,
        ensures
            self@.len() == 1 ==> r is None,
            self@.len() > 1 ==> (r matches Some(p) && p@ == self@.drop_last()),
    {
        let len = self.path.len();
        if len > 1 {
            let mut nodes: Vec<String> = Vec::new();
            let mut i: usize = 0;
            while i < len - 1
                invariant
                    len == self.path@.len(),
                    i <= len - 1,
                    nodes@.map_values(|x: String| x@) == self@.take(i as int),
                decreases len - 1 - i,
            {
                let ghost before = nodes@;
                nodes.push(self.path[i].clone());
                assert(nodes@.map_values(|x: String| x@) == before.map_values(|x: String| x@).push(self@[i as int]));
                assert(self@.take(i + 1) == self@.take(i as int).push(self@[i as int]));
                i = i + 1;
            }
            assert(self@.take(len - 1) == self@.drop_last());
            Some(ClassificationNamePath { path: nodes })
        } else {
            None
        }
    }

    /// Appends a node below the last one, without checking it.
    pub fn append_node_unchecked(&mut self, node: String)
        ensures
            final(self)@ == old(self)@.push(node@),
    {
        let ghost before = self.path@;
        self.path.push(node);
        assert(self.path@.map_values(|x: String| x@) == before.map_values(|x: String| x@).push(node@));
    }

    /// Replaces the last node, the classification's own name.
    pub fn set_name(&mut self, name: String)
        requires
            old(self)@.len() > 0,
        ensures
            final(self)@ == old(self)@.update(old(self)@.len() - 1, name@),
    {
        let last = self.path.len() - 1;
        let ghost before = self.path@;
        self.path.set(last, name);
        assert(self.path@.map_values(|x: String| x@) == before.map_values(|x: String| x@).update(last as int, name@));
    }

    /// Whether two paths have the same nodes.
    pub fn same_path(&self, other: &ClassificationNamePath) -> (r: bool)
        ensures
            r == (self@ == other@),
    {
        let n = self.path.len();
        if n != other.path.len() {
            assert(self@.len() != other@.len());
            return false;
        }
        let mut i: usize = 0;
        while i < n
            invariant
                n == self.path@.len(),
                n == other.path@.len(),
                i <= n,
                forall|j: int| 0 <= j < i ==> self@[j] == other@[j],
            decreases n - i,
        {
            if self.path[i] != other.path[i] {
                assert(self@[i as int] != other@[i as int]);
                return false;
            }
            i = i + 1;
        }
        assert(self@ =~= other@);
        true
    }
}

} // verus!

verus! {

/// Reading characters that are not separators only extends the node being read.
proof fn lemma_scan_plain(s: Seq<char>, w: Seq<char>)
    requires
        !w.contains('/'),
    ensures
        scan(s + w) == (scan(s).0, scan(s).1 + w),
    decreases w.len(),
{
    if w.len() == 0 {
        assert(s + w =~= s);
        assert(scan(s).1 + w =~= scan(s).1);
    } else {
        let w2 = w.drop_last();
        assert(!w2.contains('/')) by {
            if w2.contains('/') {
                let k = choose|k: int| 0 <= k < w2.len() && w2[k] == '/';
                assert(w[k] == '/');
            }
        }
        lemma_scan_plain(s, w2);
        assert((s + w).drop_last() =~= s + w2);
        assert((s + w).last() == w.last());
        assert(w.last() != '/') by {
            assert(w[w.len() - 1] == w.last());
        }
        assert((scan(s).1 + w2).push(w.last()) =~= scan(s).1 + w);
    }
}

/// Scanning a rendered path leaves its last node open and the others completed.
proof fn lemma_scan_render(p: Seq<Seq<char>>)
    requires
        all_nodes(p),
    ensures
        p.len() == 0 ==> scan(render(p)) == (Seq::<Seq<char>>::empty(), Seq::<char>::empty()),
        p.len() > 0 ==> scan(render(p)) == (p.drop_last(), p.last()),
    decreases p.len(),
{
    if p.len() > 0 {
        let q = p.drop_last();
        assert(all_nodes(q)) by {
            assert forall|i: int| 0 <= i < q.len() implies is_node(#[trigger] q[i]) by {
                assert(q[i] == p[i]);
            }
        }
        lemma_scan_render(q);
        let head = render(q) + seq!['/'];
        assert(head.drop_last() =~= render(q));
        assert(head.last() == '/');
        assert(scan(head) == (flush(scan(render(q)).0, scan(render(q)).1), Seq::<char>::empty()));
        if q.len() > 0 {
            assert(is_node(q.last())) by {
                assert(q.last() == q[q.len() - 1]);
            }
            assert(q.drop_last().push(q.last()) =~= q);
        }
        assert(flush(scan(render(q)).0, scan(render(q)).1) == q);
        assert(is_node(p.last())) by {
            assert(p.last() == p[p.len() - 1]);
        }
        lemma_scan_plain(head, p.last());
        assert(render(p) == head + p.last());
        assert(Seq::<char>::empty() + p.last() =~= p.last());
    }
}

/// Every node that a scan completes, and the node it is reading, is free of separators;
/// completed nodes are non-empty.
proof fn lemma_scan_nodes(s: Seq<char>)
    ensures
        all_nodes(scan(s).0),
        !scan(s).1.contains('/'),
    decreases s.len(),
{
    if s.len() > 0 {
        lemma_scan_nodes(s.drop_last());
        let (done, cur) = scan(s.drop_last());
        if s.last() == '/' {
            if cur.len() > 0 {
                let d2 = done.push(cur);
                assert forall|i: int| 0 <= i < d2.len() implies is_node(#[trigger] d2[i]) by {
                    if i < done.len() {
                        assert(d2[i] == done[i]);
                    }
                }
            }
            assert(!Seq::<char>::empty().contains('/'));
        } else {
            let c2 = cur.push(s.last());
            assert(!c2.contains('/')) by {
                if c2.contains('/') {
                    let k = choose|k: int| 0 <= k < c2.len() && c2[k] == '/';
                    if k < cur.len() {
                        assert(cur[k] == '/');
                    }
                }
            }
        }
    }
}

/// Parsing the text of a path whose nodes are non-empty and free of `/`
/// gives back the same path.
pub proof fn lemma_parse_render(p: Seq<Seq<char>>)
    requires
        all_nodes(p),
    ensures
        parse_nodes(render(p)) == p,
{
    lemma_scan_render(p);
    if p.len() > 0 {
        assert(is_node(p.last())) by {
            assert(p.last() == p[p.len() - 1]);
        }
        assert(p.drop_last().push(p.last()) =~= p);
    }
}

/// Every node that parsing produces is non-empty and free of `/`.
pub proof fn lemma_parse_nodes_are_nodes(s: Seq<char>)
    ensures
        all_nodes(parse_nodes(s)),
{
    lemma_scan_nodes(s);
    let (done, cur) = scan(s);
    if cur.len() > 0 {
        let d2 = done.push(cur);
        assert forall|i: int| 0 <= i < d2.len() implies is_node(#[trigger] d2[i]) by {
            if i < done.len() {
                assert(d2[i] == done[i]);
            }
        }
    }
}

/// Printing a parsed path and parsing it again changes nothing: the text
/// form that `to_string` gives is a normal form for `from_str`.
pub proof fn lemma_parse_idempotent(s: Seq<char>)
    ensures
        parse_nodes(render(parse_nodes(s))) == parse_nodes(s),
{
    lemma_parse_nodes_are_nodes(s);
    lemma_parse_render(parse_nodes(s));
}

} // verus!

verus! {

/// Appending a node and then taking the parent gives back the path; the
/// appended node is the name of the new path.
pub proof fn lemma_append_then_parent(p: Seq<Seq<char>>, node: Seq<char>)
    ensures
        p.push(node).drop_last() == p,
        p.push(node).last() == node,
{
    assert(p.push(node).drop_last() =~= p);
}

/// Renaming keeps the parent of a path.
pub proof fn lemma_rename_keeps_parent(p: Seq<Seq<char>>, name: Seq<char>)
    requires
        p.len() > 0,
    ensures
        p.update(p.len() - 1, name).drop_last() == p.drop_last(),
        p.update(p.len() - 1, name).last() == name,
{
    assert(p.update(p.len() - 1, name).drop_last() =~= p.drop_last());
}

} // verus!
