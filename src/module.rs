use vstd::prelude::*;

use crate::casing::{push_char, snake, to_snake_case};

verus! {

broadcast use vstd::std_specs::vec::axiom_vec_index_decreases;

/// One generated compilation unit: a name, its own source text and its child units in order.
/// A unit with children stands for a directory, one without for a single file.
pub struct Module {
    pub name: String,
    pub contents: String,
    pub submodules: Vec<Module>,
}

/// One file of the output: where it goes and the full text it holds.
pub struct FileWrite {
    pub path: String,
    pub contents: String,
}

/// A file and its text as sequences of characters.
pub open spec fn file_view(w: FileWrite) -> (Seq<char>, Seq<char>) {
    (w.path@, w.contents@)
}

pub open spec fn files_view(ws: Seq<FileWrite>) -> Seq<(Seq<char>, Seq<char>)> {
    ws.map_values(|w: FileWrite| file_view(w))
}

/// `parent/name`.
pub open spec fn join_spec(parent: Seq<char>, name: Seq<char>) -> Seq<char> {
    parent + seq!['/'] + name
}

/// The path of a child unit under the path of its parent.
pub open spec fn child_path(parent: Seq<char>, child: Module) -> Seq<char> {
    join_spec(parent, snake(child.name@))
}

/// The file of a unit without children at path `p`.
pub open spec fn leaf_file(p: Seq<char>) -> Seq<char> {
    p + seq!['.', 'r', 's']
}

/// The aggregator file of a unit with children at path `p`.
pub open spec fn mod_file(p: Seq<char>) -> Seq<char> {
    join_spec(p, seq!['m', 'o', 'd', '.', 'r', 's'])
}

/// The declaration that re-exports a child unit: `pub mod <snake name>;` and a line break.
pub open spec fn decl(child: Module) -> Seq<char> {
    seq!['p', 'u', 'b', ' ', 'm', 'o', 'd', ' '] + snake(child.name@) + seq![';', '\n']
}

/// The declarations of the first `k` children of `m`, in order.
pub open spec fn decls(m: Module, k: int) -> Seq<char>
    decreases k,
{
    if k <= 0 {
        Seq::empty()
    } else {
        decls(m, k - 1) + decl(m.submodules@[k - 1])
    }
}

/// The text of the aggregator file of `m`: one declaration per child, then its own text.
pub open spec fn aggregate(m: Module) -> Seq<char> {
    decls(m, m.submodules@.len() as int) + m.contents@
}

/// The whole tree as one text: each child's flattened text in order, then the unit's own.
pub open spec fn flat(m: Module) -> Seq<char>
    decreases m, m.submodules@.len() + 1,
{
    flat_children(m, m.submodules@.len() as int) + m.contents@
}

/// The flattened texts of the first `k` children of `m`, in order.
pub open spec fn flat_children(m: Module, k: int) -> Seq<char>
    decreases m, k,
{
    if k <= 0 || k > m.submodules@.len() {
        Seq::empty()
    } else {
        flat_children(m, k - 1) + flat(m.submodules@[k - 1])
    }
}

/// The files that unit `m` placed at path `p` turns into, each text after `header`:
/// the files of each child under the unit's directory, then the aggregator file; or, for
/// a unit without children, one file.
pub open spec fn files(m: Module, p: Seq<char>, header: Seq<char>) -> Seq<(Seq<char>, Seq<char>)>
    decreases m, m.submodules@.len() + 1,
{
    if m.submodules@.len() == 0 {
        seq![(leaf_file(p), header + m.contents@)]
    } else {
        files_children(m, p, header, m.submodules@.len() as int) + seq![
            (mod_file(p), header + aggregate(m)),
        ]
    }
}

/// The files of the first `k` children of `m`, in order.
pub open spec fn files_children(m: Module, p: Seq<char>, header: Seq<char>, k: int) -> Seq<
    (Seq<char>, Seq<char>),
>
    decreases m, k,
{
    if k <= 0 || k > m.submodules@.len() {
        Seq::empty()
    } else {
        files_children(m, p, header, k - 1) + files(
            m.submodules@[k - 1],
            child_path(p, m.submodules@[k - 1]),
            header,
        )
    }
}

/// The paths of the files of `m` at `p`, in the order in which they are written.
pub open spec fn paths(m: Module, p: Seq<char>) -> Seq<Seq<char>>
    decreases m, m.submodules@.len() + 1,
{
    if m.submodules@.len() == 0 {
        seq![leaf_file(p)]
    } else {
        paths_children(m, p, m.submodules@.len() as int) + seq![mod_file(p)]
    }
}

pub open spec fn paths_children(m: Module, p: Seq<char>, k: int) -> Seq<Seq<char>>
    decreases m, k,
{
    if k <= 0 || k > m.submodules@.len() {
        Seq::empty()
    } else {
        paths_children(m, p, k - 1) + paths(m.submodules@[k - 1], child_path(p, m.submodules@[k - 1]))
    }
}

/// The number of units without children in the tree.
pub open spec fn leaf_count(m: Module) -> nat
    decreases m, m.submodules@.len() + 1,
{
    if m.submodules@.len() == 0 {
        1
    } else {
        leaf_count_children(m, m.submodules@.len() as int)
    }
}

pub open spec fn leaf_count_children(m: Module, k: int) -> nat
    decreases m, k,
{
    if k <= 0 || k > m.submodules@.len() {
        0
    } else {
        leaf_count_children(m, k - 1) + leaf_count(m.submodules@[k - 1])
    }
}

/// The number of units with children in the tree.
pub open spec fn branch_count(m: Module) -> nat
    decreases m, m.submodules@.len() + 1,
{
    if m.submodules@.len() == 0 {
        0
    } else {
        branch_count_children(m, m.submodules@.len() as int) + 1
    }
}

pub open spec fn branch_count_children(m: Module, k: int) -> nat
    decreases m, k,
{
    if k <= 0 || k > m.submodules@.len() {
        0
    } else {
        branch_count_children(m, k - 1) + branch_count(m.submodules@[k - 1])
    }
}


/// `parent/name`.
pub fn join(parent: &str, name: &str) -> (r: String)
    ensures
        r@ == join_spec(parent@, name@),
{
    let mut r = String::from_str(parent);
    push_char(&mut r, '/');
    r.append(name);
    r
}

/// Flattening is a function of the tree alone: two flattenings of one tree give the same text.
pub proof fn lemma_flatten_stable(m: Module, first: Seq<char>, second: Seq<char>)
    requires
        first == flat(m),
        second == flat(m),
    ensures
        first == second,
{
}

/// The paths of a list of files.
pub open spec fn file_paths(fs: Seq<(Seq<char>, Seq<char>)>) -> Seq<Seq<char>> {
    fs.map_values(|f: (Seq<char>, Seq<char>)| f.0)
}

proof fn lemma_file_paths_concat(a: Seq<(Seq<char>, Seq<char>)>, b: Seq<(Seq<char>, Seq<char>)>)
    ensures
        file_paths(a + b) == file_paths(a) + file_paths(b),
{
    assert(file_paths(a + b) =~= file_paths(a) + file_paths(b));
}

/// Writing a tree as a directory tree and listing its paths agree: the listed paths are
/// exactly the paths of the written files, in the same order, one per unit without
/// children and one aggregator file per unit with children.
pub proof fn lemma_paths_match_files(m: Module, p: Seq<char>, header: Seq<char>)
    ensures
        file_paths(files(m, p, header)) == paths(m, p),
        paths(m, p).len() == leaf_count(m) + branch_count(m),
    decreases m, m.submodules@.len() + 1,
{
    let n = m.submodules@.len() as int;
    if n == 0 {
        assert(file_paths(files(m, p, header)) =~= paths(m, p));
    } else {
        lemma_children_paths_match_files(m, p, header, n);
        let last = seq![(mod_file(p), header + aggregate(m))];
        lemma_file_paths_concat(files_children(m, p, header, n), last);
        assert(file_paths(last) =~= seq![mod_file(p)]);
    }
}

proof fn lemma_children_paths_match_files(m: Module, p: Seq<char>, header: Seq<char>, k: int)
    requires
        0 <= k <= m.submodules@.len(),
    ensures
        file_paths(files_children(m, p, header, k)) == paths_children(m, p, k),
        paths_children(m, p, k).len() == leaf_count_children(m, k) + branch_count_children(m, k),
    decreases m, k,
{
    if k == 0 {
        assert(file_paths(files_children(m, p, header, k)) =~= paths_children(m, p, k));
    } else {
        let c = m.submodules@[k - 1];
        lemma_children_paths_match_files(m, p, header, k - 1);
        lemma_paths_match_files(c, child_path(p, c), header);
        lemma_file_paths_concat(
            files_children(m, p, header, k - 1),
            files(c, child_path(p, c), header),
        );
    }
}

impl Module {
    pub fn new(name: String, contents: String, submodules: Vec<Module>) -> (r: Module)
        ensures
            r.name@ == name@,
            r.contents@ == contents@,
            r.submodules@ == submodules@,
    {
        Module { name, contents, submodules }
    }

    /// The whole tree as one text: children first, in order, then the unit's own text.
    pub fn flatten(&self) -> (r: String)
        ensures
            r@ == flat(*self),
        decreases self,
    {
        let mut out = String::new();
        let n = self.submodules.len();
        let mut i: usize = 0;
        while i < n
            invariant
                n == self.submodules@.len(),
                i <= n,
                out@ == flat_children(*self, i as int),
            decreases n - i,
        {
            let part = self.submodules[i].flatten();
            out.append(part.as_str());
            i = i + 1;
        }
        out.append(self.contents.as_str());
        out
    }

    /// The text of the aggregator file: `pub mod <child>;` for each child, then the own text.
    pub fn aggregator_contents(&self) -> (r: String)
        ensures
            r@ == aggregate(*self),
    {
        let mut out = String::new();
        let n = self.submodules.len();
        let mut i: usize = 0;
        while i < n
            invariant
                n == self.submodules@.len(),
                i <= n,
                out@ == decls(*self, i as int),
            decreases n - i,
        {
            out.append("pub mod ");
            let child_name = to_snake_case(self.submodules[i].name.as_str());
            out.append(child_name.as_str());
            out.append(";\n");
            proof {
                reveal_strlit("pub mod ");
                reveal_strlit(";\n");
                assert(out@ =~= decls(*self, i + 1));
            }
            i = i + 1;
        }
        out.append(self.contents.as_str());
        out
    }

    fn collect_paths(&self, path: &str, out: &mut Vec<String>)
        ensures
            final(out)@.map_values(|s: String| s@) == old(out)@.map_values(|s: String| s@) + paths(
                *self,
                path@,
            ),
        decreases self,
    {
        let ghost start = out@.map_values(|s: String| s@);
        let n = self.submodules.len();
        if n == 0 {
            let mut file = String::from_str(path);
            file.append(".rs");
            proof {
                reveal_strlit(".rs");
            }
            assert(file@ == leaf_file(path@));
            let ghost before = out@;
            out.push(file);
            assert(out@ == before.push(file));
            assert(out@.map_values(|s: String| s@) =~= before.map_values(|s: String| s@).push(
                leaf_file(path@),
            ));
            assert(out@.map_values(|s: String| s@) =~= start + paths(*self, path@));
        } else {
            let mut i: usize = 0;
            while i < n
                invariant
                    n == self.submodules@.len(),
                    i <= n,
                    out@.map_values(|s: String| s@) == start + paths_children(*self, path@, i as int),
                decreases n - i,
            {
                let child = &self.submodules[i];
                let child_name = to_snake_case(child.name.as_str());
                let child_path = join(path, child_name.as_str());
                child.collect_paths(child_path.as_str(), out);
                proof {
                    assert(start + paths_children(*self, path@, i + 1) =~= start + paths_children(
                        *self,
                        path@,
                        i as int,
                    ) + paths(*child, child_path@));
                }
                i = i + 1;
            }
            let file = join(path, "mod.rs");
            proof {
                reveal_strlit("mod.rs");
            }
            assert(file@ == mod_file(path@));
            let ghost before = out@;
            out.push(file);
            assert(out@ == before.push(file));
            assert(out@.map_values(|s: String| s@) =~= before.map_values(|s: String| s@).push(
                mod_file(path@),
            ));
            assert(out@.map_values(|s: String| s@) =~= start + paths(*self, path@));
        }
    }

    /// Every file path that the tree placed at `root` is written to, in order: one per
    /// unit without children and one aggregator file per unit with children.
    pub fn get_all_paths(&self, root: &str) -> (r: Vec<String>)
        ensures
            r@.map_values(|s: String| s@) == paths(*self, root@),
    {
        let mut out: Vec<String> = Vec::new();
        self.collect_paths(root, &mut out);
        assert(out@.map_values(|s: String| s@) =~= Seq::<Seq<char>>::empty() + paths(*self, root@));
        out
    }

    fn collect_files(&self, path: &str, header: &str, out: &mut Vec<FileWrite>)
        ensures
            files_view(final(out)@) == files_view(old(out)@) + files(*self, path@, header@),
        decreases self,
    {
        let ghost start = files_view(out@);
        let n = self.submodules.len();
        if n == 0 {
            let mut file = String::from_str(path);
            file.append(".rs");
            proof {
                reveal_strlit(".rs");
            }
            let mut text = String::from_str(header);
            text.append(self.contents.as_str());
            let w = FileWrite { path: file, contents: text };
            assert(file_view(w) == (leaf_file(path@), header@ + self.contents@));
            let ghost before = out@;
            out.push(w);
            assert(out@ == before.push(w));
            assert(files_view(out@) =~= files_view(before).push(file_view(w)));
            assert(files_view(out@) =~= start + files(*self, path@, header@));
        } else {
            let mut i: usize = 0;
            while i < n
                invariant
                    n == self.submodules@.len(),
                    i <= n,
                    files_view(out@) == start + files_children(*self, path@, header@, i as int),
                decreases n - i,
            {
                let child = &self.submodules[i];
                let child_name = to_snake_case(child.name.as_str());
                let child_path = join(path, child_name.as_str());
                child.collect_files(child_path.as_str(), header, out);
                proof {
                    assert(start + files_children(*self, path@, header@, i + 1) =~= start
                        + files_children(*self, path@, header@, i as int) + files(
                        *child,
                        child_path@,
                        header@,
                    ));
                }
                i = i + 1;
            }
            let file = join(path, "mod.rs");
            proof {
                reveal_strlit("mod.rs");
            }
            let body = self.aggregator_contents();
            let mut text = String::from_str(header);
            text.append(body.as_str());
            let w = FileWrite { path: file, contents: text };
            assert(file_view(w) == (mod_file(path@), header@ + aggregate(*self)));
            let ghost before = out@;
            out.push(w);
            assert(out@ == before.push(w));
            assert(files_view(out@) =~= files_view(before).push(file_view(w)));
            assert(files_view(out@) =~= start + files(*self, path@, header@));
        }
    }

    /// The files, with their full text, that the tree placed as a directory tree at `root`
    /// turns into, each text after `header`, in the order in which they are written.
    pub fn materialize(&self, root: &str, header: &str) -> (r: Vec<FileWrite>)
        ensures
            files_view(r@) == files(*self, root@, header@),
    {
        let mut out: Vec<FileWrite> = Vec::new();
        self.collect_files(root, header, &mut out);
        assert(files_view(out@) =~= Seq::<(Seq<char>, Seq<char>)>::empty() + files(
            *self,
            root@,
            header@,
        ));
        out
    }
}

} // verus!
