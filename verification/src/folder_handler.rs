//! The folder tree the media browser navigates: songs grouped by the
//! directory they were scanned from, plus the navigation position.
//!
//! A folder's identity is its path, held as the list of segments from the
//! root down. Songs are inserted under the path of their parent directory;
//! missing intermediate folders are created on the way, so songs may arrive
//! in any order. Child folders always sort before song leaves — a display
//! convention enforced at insertion time.

use vstd::prelude::*;

use crate::paths::{parent_segments, spec_split_path};
use crate::selecthandler::SelectHandler;
use crate::song::{Song, SongType};
use crate::text::{clone_string_vec, clone_string_vec_prefix, eq_string_vec};

verus! {

/// A child of a folder: a sub-folder or a song leaf.
pub enum Node {
    Folder(Folder),
    Song(Song),
}

/// A directory node. `path` is its identity: the segments from the root
/// down to this folder.
pub struct Folder {
    pub name: String,
    pub path: Vec<String>,
    pub children: Vec<Node>,
}

/// The mathematical image of a `Node`.
#[verifier::ext_equal]
pub enum NodeModel {
    Folder(FolderModel),
    Song(Song),
}

/// The mathematical image of a `Folder`: names and paths as character
/// sequences, children as a sequence of images.
#[verifier::ext_equal]
pub struct FolderModel {
    pub name: Seq<char>,
    pub path: Seq<Seq<char>>,
    pub children: Seq<NodeModel>,
}

pub open spec fn node_view(n: Node) -> NodeModel
    decreases n,
{
    match n {
        Node::Folder(f) => NodeModel::Folder(folder_view(f)),
        Node::Song(s) => NodeModel::Song(s),
    }
}

/// The images of a sequence of children.
pub open spec fn nodes_view(s: Seq<Node>) -> Seq<NodeModel>
    decreases s,
    via nodes_view_decreases
{
    Seq::new(
        s.len(),
        |i: int|
            if 0 <= i < s.len() {
                node_view(s[i])
            } else {
                arbitrary()
            },
    )
}

#[via_fn]
proof fn nodes_view_decreases(s: Seq<Node>) {
    assert forall|i: int| 0 <= i < s.len() implies decreases_to!(s => s[i]) by {
    }
}

pub open spec fn folder_view(f: Folder) -> FolderModel
    decreases f,
    via folder_view_decreases
{
    FolderModel { name: f.name@, path: f.path.deep_view(), children: nodes_view(f.children@) }
}

#[via_fn]
proof fn folder_view_decreases(f: Folder) {
    assert(decreases_to!(f => f.children));
    assert(decreases_to!(f.children => f.children@));
}

impl View for Folder {
    type V = FolderModel;

    open spec fn view(&self) -> FolderModel {
        folder_view(*self)
    }
}

impl View for Node {
    type V = NodeModel;

    open spec fn view(&self) -> NodeModel {
        node_view(*self)
    }
}

/// Does this child stand for a folder with exactly this identity?
pub open spec fn matches_folder(c: NodeModel, path: Seq<Seq<char>>) -> bool {
    c matches NodeModel::Folder(g) && g.path == path
}

pub open spec fn get_folder(c: NodeModel) -> FolderModel {
    match c {
        NodeModel::Folder(g) => g,
        NodeModel::Song(_) => arbitrary(),
    }
}

/// The position of the first child folder with this identity, if any.
pub open spec fn find_folder_index(s: Seq<NodeModel>, path: Seq<Seq<char>>) -> Option<int>
    decreases s.len(),
{
    if s.len() == 0 {
        Option::None
    } else if matches_folder(s[0], path) {
        Option::Some(0int)
    } else {
        match find_folder_index(s.drop_first(), path) {
            Option::Some(i) => Option::Some(i + 1),
            Option::None => Option::None,
        }
    }
}

/// The first child folder with this identity, if any.
pub open spec fn find_folder(s: Seq<NodeModel>, path: Seq<Seq<char>>) -> Option<FolderModel> {
    match find_folder_index(s, path) {
        Option::Some(i) => Option::Some(get_folder(s[i])),
        Option::None => Option::None,
    }
}

/// `find_folder_index` returns the first matching position, or tells that
/// none matches.
pub proof fn lemma_find_folder_index(s: Seq<NodeModel>, path: Seq<Seq<char>>)
    ensures
        match find_folder_index(s, path) {
            Option::Some(i) => {
                &&& 0 <= i < s.len()
                &&& matches_folder(s[i], path)
                &&& forall|j: int| 0 <= j < i ==> !matches_folder(#[trigger] s[j], path)
            },
            Option::None => forall|j: int| 0 <= j < s.len() ==> !matches_folder(
                #[trigger] s[j],
                path,
            ),
        },
    decreases s.len(),
{
    if s.len() == 0 {
    } else if matches_folder(s[0], path) {
    } else {
        lemma_find_folder_index(s.drop_first(), path);
        let sub = s.drop_first();
        match find_folder_index(sub, path) {
            Option::Some(i) => {
                assert(s[i + 1] == sub[i]);
                assert forall|j: int| 0 <= j < i + 1 implies !matches_folder(
                    #[trigger] s[j],
                    path,
                ) by {
                    if j > 0 {
                        assert(s[j] == sub[j - 1]);
                        assert(!matches_folder(sub[j - 1], path));
                    }
                }
            },
            Option::None => {
                assert forall|j: int| 0 <= j < s.len() implies !matches_folder(
                    #[trigger] s[j],
                    path,
                ) by {
                    if j > 0 {
                        assert(s[j] == sub[j - 1]);
                        assert(!matches_folder(sub[j - 1], path));
                    }
                }
            },
        }
    }
}

/// The folder reached by walking the relative segments `rel` down from `m`,
/// matching each step by full identity.
pub open spec fn folder_at(m: FolderModel, rel: Seq<Seq<char>>) -> Option<FolderModel>
    decreases rel.len(),
{
    if rel.len() == 0 {
        Option::Some(m)
    } else {
        match find_folder(m.children, m.path.push(rel[0])) {
            Option::Some(g) => folder_at(g, rel.drop_first()),
            Option::None => Option::None,
        }
    }
}

/// The children of the folder at `rel`, when that folder exists.
pub open spec fn children_at(m: FolderModel, rel: Seq<Seq<char>>) -> Option<Seq<NodeModel>> {
    match folder_at(m, rel) {
        Option::Some(g) => Option::Some(g.children),
        Option::None => Option::None,
    }
}

/// Structural well-formedness: every child folder's identity is its
/// parent's identity extended by one segment, recursively.
pub open spec fn model_wf(m: FolderModel) -> bool
    decreases m,
    via model_wf_decreases
{
    forall|i: int|
        0 <= i < m.children.len() && (#[trigger] m.children[i]) is Folder ==> {
            let g = m.children[i]->Folder_0;
            &&& g.path == m.path.push(g.path.last())
            &&& model_wf(g)
        }
}

#[via_fn]
proof fn model_wf_decreases(m: FolderModel) {
    assert forall|i: int|
        0 <= i < m.children.len() && m.children[i] is Folder implies decreases_to!(
        m => m.children[i]->Folder_0) by {
        assert(decreases_to!(m => m.children));
        assert(decreases_to!(m.children => m.children[i]));
        assert(decreases_to!(m.children[i] => m.children[i]->Folder_0));
    }
}

/// Walking `rel` and then one more segment is walking `rel` and looking the
/// child up among the target's children.
pub proof fn lemma_folder_at_snoc(m: FolderModel, rel: Seq<Seq<char>>, seg: Seq<char>)
    ensures
        folder_at(m, rel.push(seg)) == (match folder_at(m, rel) {
            Option::Some(t) => find_folder(t.children, t.path.push(seg)),
            Option::None => Option::None::<FolderModel>,
        }),
    decreases rel.len(),
{
    if rel.len() == 0 {
        assert(rel.push(seg)[0] == seg);
        assert(rel.push(seg).drop_first() =~= Seq::<Seq<char>>::empty());
        match find_folder(m.children, m.path.push(seg)) {
            Option::Some(g) => {
                assert(folder_at(g, rel.push(seg).drop_first()) == Option::Some(g));
            },
            Option::None => {
                assert(folder_at(m, rel.push(seg)) is None);
            },
        }
    } else {
        assert(rel.push(seg)[0] == rel[0]);
        assert(rel.push(seg).drop_first() =~= rel.drop_first().push(seg));
        match find_folder(m.children, m.path.push(rel[0])) {
            Option::Some(g) => {
                lemma_folder_at_snoc(g, rel.drop_first(), seg);
            },
            Option::None => {},
        }
    }
}

/// Walking a well-formed tree lands on a well-formed folder whose identity
/// is the start's identity followed by the walked segments.
pub proof fn lemma_folder_at_wf(m: FolderModel, rel: Seq<Seq<char>>)
    requires
        model_wf(m),
        folder_at(m, rel) is Some,
    ensures
        model_wf(folder_at(m, rel)->Some_0),
        folder_at(m, rel)->Some_0.path == m.path + rel,
    decreases rel.len(),
{
    if rel.len() == 0 {
        assert(m.path + rel =~= m.path);
    } else {
        let p = m.path.push(rel[0]);
        lemma_find_folder_index(m.children, p);
        let i = find_folder_index(m.children, p)->Some_0;
        let g = get_folder(m.children[i]);
        assert(m.children[i] is Folder);
        assert(model_wf(g));
        lemma_folder_at_wf(g, rel.drop_first());
        assert(g.path + rel.drop_first() =~= m.path + rel);
    }
}

/// Appending a child: folders go before the leaves, at the front; songs go
/// at the back.
pub open spec fn model_add_child(m: FolderModel, c: NodeModel) -> FolderModel {
    FolderModel {
        name: m.name,
        path: m.path,
        children: if c is Folder {
            m.children.insert(0, c)
        } else {
            m.children.push(c)
        },
    }
}

/// Inserting a song at the parent whose path lies `rel` below `m`: walk the
/// matching child folder, or fabricate it when it is missing, and place the
/// leaf at the end of the parent's children.
pub open spec fn insert_model(m: FolderModel, song: Song, rel: Seq<Seq<char>>) -> FolderModel
    decreases rel.len(),
{
    if rel.len() == 0 {
        model_add_child(m, NodeModel::Song(song))
    } else {
        let cpath = m.path.push(rel[0]);
        match find_folder_index(m.children, cpath) {
            Option::Some(i) => FolderModel {
                name: m.name,
                path: m.path,
                children: m.children.update(
                    i,
                    NodeModel::Folder(
                        insert_model(get_folder(m.children[i]), song, rel.drop_first()),
                    ),
                ),
            },
            Option::None => {
                let g = FolderModel { name: rel[0], path: cpath, children: Seq::empty() };
                model_add_child(m, NodeModel::Folder(insert_model(g, song, rel.drop_first())))
            },
        }
    }
}

/// Inserting a song leaf keeps the folder's own identity and keeps the
/// whole tree well-formed: fabricated folders extend their parent's
/// identity by one segment like every other child folder.
pub proof fn lemma_insert_model_wf(m: FolderModel, song: Song, rel: Seq<Seq<char>>)
    requires
        model_wf(m),
    ensures
        model_wf(insert_model(m, song, rel)),
        insert_model(m, song, rel).path == m.path,
        insert_model(m, song, rel).name == m.name,
    decreases rel.len(),
{
    let m2 = insert_model(m, song, rel);
    if rel.len() == 0 {
        assert forall|i: int|
            0 <= i < m2.children.len() && (#[trigger] m2.children[i]) is Folder implies {
            let g = m2.children[i]->Folder_0;
            &&& g.path == m2.path.push(g.path.last())
            &&& model_wf(g)
        } by {
            assert(m2.children[i] == m.children[i]);
        }
    } else {
        let cpath = m.path.push(rel[0]);
        match find_folder_index(m.children, cpath) {
            Option::Some(i) => {
                lemma_find_folder_index(m.children, cpath);
                let g = get_folder(m.children[i]);
                assert(m.children[i] is Folder);
                assert(model_wf(g));
                lemma_insert_model_wf(g, song, rel.drop_first());
                let g2 = insert_model(g, song, rel.drop_first());
                assert(g2.path == cpath);
                assert(cpath.last() == rel[0]);
                assert forall|i2: int|
                    0 <= i2 < m2.children.len() && (#[trigger] m2.children[i2]) is Folder implies {
                    let h = m2.children[i2]->Folder_0;
                    &&& h.path == m2.path.push(h.path.last())
                    &&& model_wf(h)
                } by {
                    if i2 != i {
                        assert(m2.children[i2] == m.children[i2]);
                    } else {
                        assert(m2.children[i2] == NodeModel::Folder(g2));
                    }
                }
            },
            Option::None => {
                let g0 = FolderModel {
                    name: rel[0],
                    path: cpath,
                    children: Seq::<NodeModel>::empty(),
                };
                assert(model_wf(g0));
                lemma_insert_model_wf(g0, song, rel.drop_first());
                let g2 = insert_model(g0, song, rel.drop_first());
                assert(g2.path == cpath);
                assert(cpath.last() == rel[0]);
                assert forall|i2: int|
                    0 <= i2 < m2.children.len() && (#[trigger] m2.children[i2]) is Folder implies {
                    let h = m2.children[i2]->Folder_0;
                    &&& h.path == m2.path.push(h.path.last())
                    &&& model_wf(h)
                } by {
                    if i2 == 0 {
                        assert(m2.children[i2] == NodeModel::Folder(g2));
                    } else {
                        assert(m2.children[i2] == m.children[i2 - 1]);
                    }
                }
            },
        }
    }
}

impl Folder {
    pub fn new(name: String, path: Vec<String>) -> (r: Self)
        ensures
            r@ == (FolderModel {
                name: name@,
                path: path.deep_view(),
                children: Seq::<NodeModel>::empty(),
            }),
    {
        let r = Folder { name, path, children: Vec::new() };
        proof {
            assert(r@.children =~= Seq::<NodeModel>::empty());
            assert(r@ =~= FolderModel {
                name: r.name@,
                path: r.path.deep_view(),
                children: Seq::<NodeModel>::empty(),
            });
        }
        r
    }

    pub fn name(&self) -> (r: &str)
        ensures
            r@ == self@.name,
    {
        self.name.as_str()
    }

    pub fn get_children(&self) -> (r: &Vec<Node>)
        ensures
            nodes_view(r@) == self@.children,
            r@.len() == self@.children.len(),
            forall|i: int| 0 <= i < r@.len() ==> (#[trigger] r@[i])@ == self@.children[i],
    {
        &self.children
    }

    /// Adds one child directly to this folder, a folder child in front of
    /// the leaves, a song child at the back.
    pub fn add_child(&mut self, child: Node)
        ensures
            final(self)@ == model_add_child(old(self)@, child@),
    {
        let is_folder = matches!(child, Node::Folder(_));
        if is_folder {
            self.children.insert(0, child);
        } else {
            self.children.push(child);
        }
        proof {
            assert(final(self)@.children =~= model_add_child(old(self)@, child@).children);
            assert(final(self)@ =~= model_add_child(old(self)@, child@));
        }
    }

    /// The position of the direct child folder whose identity is `cpath`.
    fn find_child_folder_index(&self, cpath: &Vec<String>) -> (r: Option<usize>)
        ensures
            match r {
                Option::Some(i) => {
                    &&& i < self.children@.len()
                    &&& find_folder_index(self@.children, cpath.deep_view()) == Option::Some(
                        i as int,
                    )
                },
                Option::None => find_folder_index(self@.children, cpath.deep_view()) is None,
            },
    {
        let n = self.children.len();
        let mut j: usize = 0;
        while j < n
            invariant
                n == self.children@.len(),
                self@.children.len() == n,
                j <= n,
                forall|k: int| 0 <= k < j ==> !matches_folder(
                    #[trigger] self@.children[k],
                    cpath.deep_view(),
                ),
            decreases n - j,
        {
            let hit = match &self.children[j] {
                Node::Folder(g) => {
                    let e = eq_string_vec(&g.path, cpath);
                    proof {
                        assert(self.children@[j as int] == Node::Folder(*g));
                        assert(self@.children[j as int] == node_view(self.children@[j as int]));
                        assert(e == matches_folder(self@.children[j as int], cpath.deep_view()));
                    }
                    e
                },
                Node::Song(_) => {
                    proof {
                        assert(self@.children[j as int] == node_view(self.children@[j as int]));
                        assert(!matches_folder(self@.children[j as int], cpath.deep_view()));
                    }
                    false
                },
            };
            if hit {
                proof {
                    assert(matches_folder(self@.children[j as int], cpath.deep_view()));
                    lemma_find_folder_index(self@.children, cpath.deep_view());
                    if find_folder_index(self@.children, cpath.deep_view()) is None {
                        assert(false);
                    } else {
                        let i = find_folder_index(self@.children, cpath.deep_view())->Some_0;
                        if i < j {
                            assert(matches_folder(self@.children[i], cpath.deep_view()));
                            assert(false);
                        }
                        if i > j {
                            assert(!matches_folder(self@.children[j as int], cpath.deep_view()));
                            assert(false);
                        }
                    }
                }
                return Some(j);
            }
            proof {
                assert(!matches_folder(self@.children[j as int], cpath.deep_view()));
            }
            j += 1;
        }
        proof {
            lemma_find_folder_index(self@.children, cpath.deep_view());
            if !(find_folder_index(self@.children, cpath.deep_view()) is None) {
                let i = find_folder_index(self@.children, cpath.deep_view())->Some_0;
                assert(matches_folder(self@.children[i], cpath.deep_view()));
                assert(false);
            }
        }
        None
    }

    /// Inserts a song leaf under the folder whose identity is
    /// `parent_path`, fabricating any missing folders on the way down; the
    /// receiving folder's identity must lead towards the parent.
    pub fn add_child_at_path(&mut self, child: Node, parent_path: &Vec<String>)
        requires
            child is Song,
            old(self)@.path.is_prefix_of(parent_path.deep_view()),
        ensures
            final(self)@ == insert_model(
                old(self)@,
                child->Song_0,
                parent_path.deep_view().skip(old(self)@.path.len() as int),
            ),
        decreases parent_path@.len() - old(self).path@.len(),
    {
        let ghost m0 = folder_view(*old(self));
        let ghost pv = parent_path.deep_view();
        let ghost rel = pv.skip(m0.path.len() as int);
        proof {
            assert(m0.path.len() == old(self).path@.len());
            assert(pv.len() == parent_path@.len());
        }
        let depth = self.path.len();
        if depth == parent_path.len() {
            proof {
                assert(rel.len() == 0);
            }
            self.add_child(child);
            proof {
                assert(child@ == NodeModel::Song(child->Song_0));
            }
        } else {
            let cpath = clone_string_vec_prefix(parent_path, depth + 1);
            proof {
                assert(cpath.deep_view() =~= m0.path.push(rel[0])) by {
                    assert(cpath@ == parent_path@.subrange(0, depth + 1 as int));
                    assert(cpath.deep_view().len() == depth + 1);
                    assert forall|j: int| 0 <= j < depth + 1 implies #[trigger] cpath.deep_view()[j]
                        == m0.path.push(rel[0])[j] by {
                        assert(cpath.deep_view()[j] == cpath@[j]@);
                        assert(cpath@[j] == parent_path@[j]);
                        assert(pv[j] == parent_path@[j]@);
                        if j < depth {
                            assert(m0.path[j] == pv[j]);
                        } else {
                            assert(rel[0] == pv[depth as int]);
                        }
                    }
                }
                assert(rel.drop_first() =~= pv.skip(depth + 1 as int));
            }
            match self.find_child_folder_index(&cpath) {
                Some(i) => {
                    proof {
                        lemma_find_folder_index(m0.children, cpath.deep_view());
                        assert(matches_folder(m0.children[i as int], cpath.deep_view()));
                    }
                    let node = self.children.remove(i);
                    match node {
                        Node::Folder(mut g) => {
                            proof {
                                assert(node_view(Node::Folder(g)) == m0.children[i as int]);
                                assert(folder_view(g).path == cpath.deep_view());
                                assert(g.path.deep_view().len() == g.path@.len());
                                assert(folder_view(g) == get_folder(m0.children[i as int]));
                            }
                            g.add_child_at_path(child, parent_path);
                            self.children.insert(i, Node::Folder(g));
                            proof {
                                let inserted = NodeModel::Folder(
                                    insert_model(
                                        get_folder(m0.children[i as int]),
                                        child->Song_0,
                                        rel.drop_first(),
                                    ),
                                );
                                assert(self.children@ =~= old(self).children@.update(
                                    i as int,
                                    Node::Folder(g),
                                ));
                                assert(folder_view(*self).children =~= m0.children.update(
                                    i as int,
                                    inserted,
                                ));
                                assert(folder_view(*self) =~= insert_model(
                                    m0,
                                    child->Song_0,
                                    rel,
                                ));
                            }
                        },
                        Node::Song(s) => {
                            proof {
                                assert(node_view(Node::Song(s)) == m0.children[i as int]);
                                assert(false);
                            }
                            self.children.insert(i, Node::Song(s));
                        },
                    }
                },
                None => {
                    let name = parent_path[depth].clone();
                    let mut g = Folder::new(name, cpath);
                    proof {
                        assert(g@.path == m0.path.push(rel[0]));
                        assert(g@.name == pv[depth as int]);
                        assert(g@.name == rel[0]);
                        assert(g@.path.is_prefix_of(pv)) by {
                            assert(g@.path =~= pv.subrange(0, depth + 1 as int));
                        }
                        assert(g.path@.len() == depth + 1);
                    }
                    g.add_child_at_path(child, parent_path);
                    proof {
                        assert(g@ == insert_model(
                            FolderModel {
                                name: rel[0],
                                path: m0.path.push(rel[0]),
                                children: Seq::<NodeModel>::empty(),
                            },
                            child->Song_0,
                            rel.drop_first(),
                        ));
                    }
                    self.add_child(Node::Folder(g));
                    proof {
                        assert(folder_view(*self) =~= insert_model(m0, child->Song_0, rel));
                    }
                },
            }
        }
    }

    /// The direct child folder whose identity is `path`, if there is one.
    pub fn get_folder_at_path(&self, path: &Vec<String>) -> (r: Option<&Folder>)
        ensures
            match r {
                Option::Some(g) => find_folder(self@.children, path.deep_view()) == Option::Some(
                    g@,
                ),
                Option::None => find_folder(self@.children, path.deep_view()) is None,
            },
    {
        match self.find_child_folder_index(path) {
            Some(i) => {
                match &self.children[i] {
                    Node::Folder(g) => Some(g),
                    Node::Song(_) => {
                        proof {
                            lemma_find_folder_index(self@.children, path.deep_view());
                            assert(matches_folder(self@.children[i as int], path.deep_view()));
                            assert(false);
                        }
                        None
                    },
                }
            },
            None => None,
        }
    }
}

/// Inserting a song leaf never changes the folder's own identity.
pub proof fn lemma_insert_model_id(m: FolderModel, song: Song, rel: Seq<Seq<char>>)
    ensures
        insert_model(m, song, rel).path == m.path,
        insert_model(m, song, rel).name == m.name,
{
    if rel.len() == 0 {
    } else {
        match find_folder_index(m.children, m.path.push(rel[0])) {
            Option::Some(_) => {},
            Option::None => {},
        }
    }
}

/// A match at `i` with no match before it is exactly where
/// `find_folder_index` lands.
pub proof fn lemma_find_index_is(s: Seq<NodeModel>, p: Seq<Seq<char>>, i: int)
    requires
        0 <= i < s.len(),
        matches_folder(s[i], p),
        forall|j: int| 0 <= j < i ==> !matches_folder(#[trigger] s[j], p),
    ensures
        find_folder_index(s, p) == Option::Some(i),
{
    lemma_find_folder_index(s, p);
    match find_folder_index(s, p) {
        Option::Some(k) => {
            if k < i {
                assert(!matches_folder(s[k], p));
            }
            if k > i {
                assert(!matches_folder(s[i], p));
            }
        },
        Option::None => {
            assert(!matches_folder(s[i], p));
        },
    }
}

/// Appending a non-matching child does not change where a folder is found.
pub proof fn lemma_find_index_push(s: Seq<NodeModel>, c: NodeModel, p: Seq<Seq<char>>)
    requires
        !matches_folder(c, p),
    ensures
        find_folder_index(s.push(c), p) == find_folder_index(s, p),
    decreases s.len(),
{
    if s.len() == 0 {
        assert(s.push(c)[0] == c);
        assert(s.push(c).drop_first() =~= Seq::<NodeModel>::empty());
        assert(find_folder_index(s.push(c).drop_first(), p) is None);
    } else {
        assert(s.push(c)[0] == s[0]);
        assert(s.push(c).drop_first() =~= s.drop_first().push(c));
        if matches_folder(s[0], p) {
        } else {
            lemma_find_index_push(s.drop_first(), c, p);
            assert(find_folder_index(s.push(c).drop_first(), p) == find_folder_index(
                s.drop_first(),
                p,
            ));
        }
    }
}

/// Replacing a non-matching child with another non-matching one does not
/// change where a folder is found.
pub proof fn lemma_find_index_update_nonmatch(
    s: Seq<NodeModel>,
    i: int,
    c: NodeModel,
    p: Seq<Seq<char>>,
)
    requires
        0 <= i < s.len(),
        !matches_folder(s[i], p),
        !matches_folder(c, p),
    ensures
        find_folder_index(s.update(i, c), p) == find_folder_index(s, p),
{
    let s2 = s.update(i, c);
    lemma_find_folder_index(s, p);
    lemma_find_folder_index(s2, p);
    assert(forall|j: int|
        0 <= j < s.len() ==> matches_folder(#[trigger] s2[j], p) == matches_folder(s[j], p));
    match find_folder_index(s, p) {
        Option::Some(k) => {
            lemma_find_index_is(s2, p, k);
        },
        Option::None => {
            match find_folder_index(s2, p) {
                Option::Some(k2) => {
                    assert(!matches_folder(s[k2], p));
                    assert(false);
                },
                Option::None => {},
            }
        },
    }
}

/// Every song leaf a folder holds is still held after inserting another
/// song somewhere in the tree, and every folder that resolved still
/// resolves: insertion loses nothing that was reachable.
pub proof fn lemma_insert_preserves_leaves(
    m: FolderModel,
    song: Song,
    rel: Seq<Seq<char>>,
    rel2: Seq<Seq<char>>,
)
    ensures
        children_at(m, rel2) is Some ==> {
            &&& children_at(insert_model(m, song, rel), rel2) is Some
            &&& forall|x: NodeModel|
                x is Song && #[trigger] children_at(m, rel2)->Some_0.contains(x)
                    ==> children_at(insert_model(m, song, rel), rel2)->Some_0.contains(x)
        },
    decreases rel.len(),
{
    let m2 = insert_model(m, song, rel);
    if children_at(m, rel2) is Some {
        let cs = children_at(m, rel2)->Some_0;
        if rel.len() == 0 {
            let sn = NodeModel::Song(song);
            assert(m2.children == m.children.push(sn));
            if rel2.len() == 0 {
                assert(children_at(m2, rel2) == Option::Some(m2.children));
                assert forall|x: NodeModel|
                    x is Song && #[trigger] cs.contains(x) implies m2.children.contains(x) by {
                    let k = choose|k: int| 0 <= k < cs.len() && cs[k] == x;
                    assert(m2.children[k] == x);
                }
            } else {
                let cpath2 = m.path.push(rel2[0]);
                lemma_find_index_push(m.children, sn, cpath2);
                lemma_find_folder_index(m.children, cpath2);
                match find_folder_index(m.children, cpath2) {
                    Option::Some(i) => {
                        assert(0 <= i < m.children.len());
                        assert(m2.children[i] == m.children[i]);
                        assert(find_folder(m2.children, m2.path.push(rel2[0])) == find_folder(
                            m.children,
                            cpath2,
                        ));
                        assert(children_at(m2, rel2) == children_at(m, rel2));
                    },
                    Option::None => {
                        assert(children_at(m, rel2) is None);
                        assert(false);
                    },
                }
            }
        } else {
            let cpath = m.path.push(rel[0]);
            match find_folder_index(m.children, cpath) {
                Option::Some(i) => {
                    lemma_find_folder_index(m.children, cpath);
                    let g = get_folder(m.children[i]);
                    let g2 = insert_model(g, song, rel.drop_first());
                    lemma_insert_model_id(g, song, rel.drop_first());
                    assert(g2.path == cpath);
                    assert(m2.children == m.children.update(i, NodeModel::Folder(g2)));
                    if rel2.len() == 0 {
                        assert(children_at(m2, rel2) == Option::Some(m2.children));
                        assert forall|x: NodeModel|
                            x is Song && #[trigger] cs.contains(x) implies m2.children.contains(
                            x,
                        ) by {
                            let k = choose|k: int| 0 <= k < cs.len() && cs[k] == x;
                            assert(cs[i] is Folder);
                            assert(k != i);
                            assert(m2.children[k] == x);
                        }
                    } else {
                        let cpath2 = m.path.push(rel2[0]);
                        if rel2[0] == rel[0] {
                            assert(cpath2 == cpath);
                            lemma_find_index_is(m2.children, cpath, i);
                            assert(get_folder(m2.children[i]) == g2);
                            assert(children_at(m, rel2) == children_at(g, rel2.drop_first()));
                            assert(children_at(m2, rel2) == children_at(g2, rel2.drop_first()));
                            lemma_insert_preserves_leaves(
                                g,
                                song,
                                rel.drop_first(),
                                rel2.drop_first(),
                            );
                        } else {
                            assert(cpath2 != cpath) by {
                                assert(cpath.last() == rel[0]);
                                assert(cpath2.last() == rel2[0]);
                            }
                            assert(!matches_folder(m.children[i], cpath2));
                            assert(!matches_folder(NodeModel::Folder(g2), cpath2));
                            lemma_find_index_update_nonmatch(
                                m.children,
                                i,
                                NodeModel::Folder(g2),
                                cpath2,
                            );
                            match find_folder_index(m.children, cpath2) {
                                Option::Some(k) => {
                                    lemma_find_folder_index(m.children, cpath2);
                                    assert(k != i);
                                    assert(m2.children[k] == m.children[k]);
                                    assert(children_at(m2, rel2) == children_at(m, rel2));
                                },
                                Option::None => {
                                    assert(children_at(m, rel2) is None);
                                    assert(false);
                                },
                            }
                        }
                    }
                },
                Option::None => {
                    let g0 = FolderModel {
                        name: rel[0],
                        path: cpath,
                        children: Seq::<NodeModel>::empty(),
                    };
                    let g2 = insert_model(g0, song, rel.drop_first());
                    lemma_insert_model_id(g0, song, rel.drop_first());
                    assert(g2.path == cpath);
                    assert(m2.children == m.children.insert(0, NodeModel::Folder(g2)));
                    assert(m2.children[0] == NodeModel::Folder(g2));
                    assert(m2.children.drop_first() =~= m.children);
                    if rel2.len() == 0 {
                        assert(children_at(m2, rel2) == Option::Some(m2.children));
                        assert forall|x: NodeModel|
                            x is Song && #[trigger] cs.contains(x) implies m2.children.contains(
                            x,
                        ) by {
                            let k = choose|k: int| 0 <= k < cs.len() && cs[k] == x;
                            assert(m2.children[k + 1] == x);
                        }
                    } else {
                        let cpath2 = m.path.push(rel2[0]);
                        if rel2[0] == rel[0] {
                            assert(children_at(m, rel2) is None);
                            assert(false);
                        } else {
                            assert(cpath2 != cpath) by {
                                assert(cpath.last() == rel[0]);
                                assert(cpath2.last() == rel2[0]);
                            }
                            assert(!matches_folder(m2.children[0], cpath2));
                            lemma_find_folder_index(m.children, cpath2);
                            match find_folder_index(m.children, cpath2) {
                                Option::Some(k) => {
                                    assert(0 <= k < m.children.len());
                                    assert(find_folder_index(m2.children, cpath2)
                                        == Option::Some(k + 1));
                                    assert(m2.children[k + 1] == m.children[k]);
                                    assert(children_at(m2, rel2) == children_at(m, rel2));
                                },
                                Option::None => {
                                    assert(children_at(m, rel2) is None);
                                    assert(false);
                                },
                            }
                        }
                    }
                },
            }
        }
    }
}

/// The display convention of one child list: every folder stands before
/// every song leaf.
pub open spec fn folders_first(s: Seq<NodeModel>) -> bool {
    forall|i: int, j: int| 0 <= i < j < s.len() && (#[trigger] s[i]) is Song ==> (#[trigger] s[j]) is Song
}

/// No two sibling folders share an identity.
pub open spec fn siblings_unique(s: Seq<NodeModel>) -> bool {
    forall|i: int, j: int|
        0 <= i < j < s.len() && (#[trigger] s[i]) is Folder && (#[trigger] s[j]) is Folder
            ==> (s[i]->Folder_0).path != (s[j]->Folder_0).path
}

/// Both layout invariants, over the whole tree.
pub open spec fn tree_layout(m: FolderModel) -> bool
    decreases m,
    via tree_layout_decreases
{
    &&& folders_first(m.children)
    &&& siblings_unique(m.children)
    &&& forall|i: int|
        0 <= i < m.children.len() && (#[trigger] m.children[i]) is Folder ==> tree_layout(
            m.children[i]->Folder_0,
        )
}

#[via_fn]
proof fn tree_layout_decreases(m: FolderModel) {
    assert forall|i: int|
        0 <= i < m.children.len() && m.children[i] is Folder implies decreases_to!(
        m => m.children[i]->Folder_0) by {
        assert(decreases_to!(m => m.children));
        assert(decreases_to!(m.children => m.children[i]));
        assert(decreases_to!(m.children[i] => m.children[i]->Folder_0));
    }
}

/// Inserting a song leaf keeps the display layout: folders stay in front
/// of the leaves, and sibling folder identities stay distinct — a
/// fabricated folder's identity was found missing before it is added.
pub proof fn lemma_insert_preserves_layout(m: FolderModel, song: Song, rel: Seq<Seq<char>>)
    requires
        tree_layout(m),
    ensures
        tree_layout(insert_model(m, song, rel)),
    decreases rel.len(),
{
    let m2 = insert_model(m, song, rel);
    if rel.len() == 0 {
        let s2 = m2.children;
        assert(s2 == m.children.push(NodeModel::Song(song)));
        assert forall|i: int, j: int|
            0 <= i < j < s2.len() && (#[trigger] s2[i]) is Song implies (#[trigger] s2[j])
            is Song by {
            if j < m.children.len() {
                assert(s2[i] == m.children[i]);
                assert(s2[j] == m.children[j]);
            }
        }
        assert forall|i: int, j: int|
            0 <= i < j < s2.len() && (#[trigger] s2[i]) is Folder && (#[trigger] s2[j])
                is Folder implies (s2[i]->Folder_0).path != (s2[j]->Folder_0).path by {
            assert(s2[i] == m.children[i]);
            assert(s2[j] == m.children[j]);
        }
        assert forall|i: int|
            0 <= i < s2.len() && (#[trigger] s2[i]) is Folder implies tree_layout(
            s2[i]->Folder_0,
        ) by {
            assert(s2[i] == m.children[i]);
        }
    } else {
        let cpath = m.path.push(rel[0]);
        match find_folder_index(m.children, cpath) {
            Option::Some(i) => {
                lemma_find_folder_index(m.children, cpath);
                let g = get_folder(m.children[i]);
                let g2 = insert_model(g, song, rel.drop_first());
                lemma_insert_model_id(g, song, rel.drop_first());
                lemma_insert_preserves_layout(g, song, rel.drop_first());
                let s2 = m2.children;
                assert(s2 == m.children.update(i, NodeModel::Folder(g2)));
                assert forall|i2: int, j: int|
                    0 <= i2 < j < s2.len() && (#[trigger] s2[i2]) is Song implies (
                #[trigger] s2[j]) is Song by {
                    assert(s2[i2] is Song == m.children[i2] is Song);
                    assert(s2[j] is Song == m.children[j] is Song);
                }
                assert forall|i2: int, j: int|
                    0 <= i2 < j < s2.len() && (#[trigger] s2[i2]) is Folder && (#[trigger] s2[j])
                        is Folder implies (s2[i2]->Folder_0).path != (s2[j]->Folder_0).path by {
                    assert((s2[i2]->Folder_0).path == (m.children[i2]->Folder_0).path);
                    assert((s2[j]->Folder_0).path == (m.children[j]->Folder_0).path);
                }
                assert forall|i2: int|
                    0 <= i2 < s2.len() && (#[trigger] s2[i2]) is Folder implies tree_layout(
                    s2[i2]->Folder_0,
                ) by {
                    if i2 != i {
                        assert(s2[i2] == m.children[i2]);
                    }
                }
            },
            Option::None => {
                lemma_find_folder_index(m.children, cpath);
                let g0 = FolderModel {
                    name: rel[0],
                    path: cpath,
                    children: Seq::<NodeModel>::empty(),
                };
                let g2 = insert_model(g0, song, rel.drop_first());
                lemma_insert_model_id(g0, song, rel.drop_first());
                assert(tree_layout(g0));
                lemma_insert_preserves_layout(g0, song, rel.drop_first());
                let s2 = m2.children;
                assert(s2 == m.children.insert(0, NodeModel::Folder(g2)));
                assert forall|i2: int, j: int|
                    0 <= i2 < j < s2.len() && (#[trigger] s2[i2]) is Song implies (
                #[trigger] s2[j]) is Song by {
                    assert(s2[i2] == m.children[i2 - 1]);
                    assert(s2[j] == m.children[j - 1]);
                }
                assert forall|i2: int, j: int|
                    0 <= i2 < j < s2.len() && (#[trigger] s2[i2]) is Folder && (#[trigger] s2[j])
                        is Folder implies (s2[i2]->Folder_0).path != (s2[j]->Folder_0).path by {
                    if i2 == 0 {
                        assert(s2[j] == m.children[j - 1]);
                        assert(!matches_folder(m.children[j - 1], cpath));
                        assert((s2[i2]->Folder_0).path == cpath);
                    } else {
                        assert(s2[i2] == m.children[i2 - 1]);
                        assert(s2[j] == m.children[j - 1]);
                    }
                }
                assert forall|i2: int|
                    0 <= i2 < s2.len() && (#[trigger] s2[i2]) is Folder implies tree_layout(
                    s2[i2]->Folder_0,
                ) by {
                    if i2 > 0 {
                        assert(s2[i2] == m.children[i2 - 1]);
                    }
                }
            },
        }
    }
}

/// The inserted song leaf is reachable at exactly the parent path it was
/// inserted with: the parent's children after the insertion are what they
/// were, with the new leaf at the end — and the parent folder itself is
/// fabricated by the insertion when it did not exist yet.
pub proof fn lemma_insert_children_at(m: FolderModel, song: Song, rel: Seq<Seq<char>>)
    ensures
        children_at(insert_model(m, song, rel), rel) == Option::Some(
            match children_at(m, rel) {
                Option::Some(cs) => cs.push(NodeModel::Song(song)),
                Option::None => seq![NodeModel::Song(song)],
            },
        ),
    decreases rel.len(),
{
    let m2 = insert_model(m, song, rel);
    if rel.len() == 0 {
        assert(children_at(m2, rel) == Option::Some(m2.children));
        assert(children_at(m, rel) == Option::Some(m.children));
    } else {
        let cpath = m.path.push(rel[0]);
        match find_folder_index(m.children, cpath) {
            Option::Some(i) => {
                lemma_find_folder_index(m.children, cpath);
                let g = get_folder(m.children[i]);
                let g2 = insert_model(g, song, rel.drop_first());
                lemma_insert_model_id(g, song, rel.drop_first());
                assert(m2.children == m.children.update(i, NodeModel::Folder(g2)));
                lemma_find_index_is(m2.children, cpath, i);
                assert(get_folder(m2.children[i]) == g2);
                assert(children_at(m, rel) == children_at(g, rel.drop_first()));
                assert(children_at(m2, rel) == children_at(g2, rel.drop_first()));
                lemma_insert_children_at(g, song, rel.drop_first());
            },
            Option::None => {
                let g0 = FolderModel {
                    name: rel[0],
                    path: cpath,
                    children: Seq::<NodeModel>::empty(),
                };
                let g2 = insert_model(g0, song, rel.drop_first());
                lemma_insert_model_id(g0, song, rel.drop_first());
                assert(m2.children == m.children.insert(0, NodeModel::Folder(g2)));
                assert(m2.children[0] == NodeModel::Folder(g2));
                lemma_find_index_is(m2.children, cpath, 0);
                assert(children_at(m2, rel) == children_at(g2, rel.drop_first()));
                assert(children_at(m, rel) is None);
                lemma_insert_children_at(g0, song, rel.drop_first());
                if rel.drop_first().len() == 0 {
                    assert(children_at(g0, rel.drop_first()) == Option::Some(g0.children));
                    assert(g0.children.push(NodeModel::Song(song)) =~= seq![
                        NodeModel::Song(song),
                    ]);
                } else {
                    assert(children_at(g0, rel.drop_first()) is None);
                }
            },
        }
    }
}

/// The song leaves among a folder's direct children, in order — deliberately
/// not recursing into sub-folders: "play all here" takes exactly what the
/// user sees at this level.
pub open spec fn spec_songs_of(s: Seq<NodeModel>) -> Seq<Song>
    decreases s.len(),
{
    if s.len() == 0 {
        Seq::<Song>::empty()
    } else {
        match s.last() {
            NodeModel::Song(x) => spec_songs_of(s.drop_last()).push(x),
            NodeModel::Folder(_) => spec_songs_of(s.drop_last()),
        }
    }
}

/// Collects the song leaves among these children, in order.
pub fn songs_of_children(children: &Vec<Node>) -> (r: Vec<Song>)
    ensures
        r@ == spec_songs_of(nodes_view(children@)),
{
    let ghost cv = nodes_view(children@);
    let mut r: Vec<Song> = Vec::new();
    let n = children.len();
    let mut i: usize = 0;
    proof {
        assert(cv.subrange(0, 0) =~= Seq::<NodeModel>::empty());
    }
    while i < n
        invariant
            i <= n,
            n == children@.len(),
            cv == nodes_view(children@),
            cv.len() == n,
            r@ == spec_songs_of(cv.subrange(0, i as int)),
        decreases n - i,
    {
        proof {
            assert(cv.subrange(0, i + 1 as int).drop_last() =~= cv.subrange(0, i as int));
            assert(cv.subrange(0, i + 1 as int).last() == cv[i as int]);
            assert(cv[i as int] == node_view(children@[i as int]));
        }
        match &children[i] {
            Node::Song(song) => {
                r.push(song.clone());
            },
            Node::Folder(_) => {},
        }
        i += 1;
    }
    proof {
        assert(cv.subrange(0, n as int) =~= cv);
    }
    r
}

/// Inserting a local song: its parent directory's segments name the folder
/// it lands in. Songs that are not local files have no place in the tree.
pub open spec fn insert_song_model(m: FolderModel, song: Song) -> FolderModel {
    match song.song_type {
        SongType::Local { path } => insert_model(m, song, spec_split_path(path@).drop_last()),
        _ => m,
    }
}

/// Inserting a list of songs, in order.
pub open spec fn insert_songs_model(m: FolderModel, songs: Seq<Song>) -> FolderModel
    decreases songs.len(),
{
    if songs.len() == 0 {
        m
    } else {
        insert_songs_model(insert_song_model(m, songs[0]), songs.drop_first())
    }
}

/// A song leaf that was reachable stays reachable through any further list
/// of insertions.
pub proof fn lemma_insert_songs_model_preserves(
    m: FolderModel,
    songs: Seq<Song>,
    rel2: Seq<Seq<char>>,
    x: NodeModel,
)
    requires
        x is Song,
        children_at(m, rel2) is Some,
        children_at(m, rel2)->Some_0.contains(x),
    ensures
        children_at(insert_songs_model(m, songs), rel2) is Some,
        children_at(insert_songs_model(m, songs), rel2)->Some_0.contains(x),
    decreases songs.len(),
{
    if songs.len() == 0 {
    } else {
        let m1 = insert_song_model(m, songs[0]);
        match songs[0].song_type {
            SongType::Local { path } => {
                lemma_insert_preserves_leaves(
                    m,
                    songs[0],
                    spec_split_path(path@).drop_last(),
                    rel2,
                );
            },
            _ => {},
        }
        lemma_insert_songs_model_preserves(m1, songs.drop_first(), rel2, x);
    }
}

/// The law the tree is built under: whatever order the scan delivers songs
/// in, every local song in the list is reachable in the finished tree by
/// walking exactly the segments of its parent directory — folders missing
/// at insertion time were fabricated on the way.
pub proof fn lemma_insert_songs_model_reachable(m: FolderModel, songs: Seq<Song>, k: int)
    requires
        0 <= k < songs.len(),
        songs[k].song_type is Local,
    ensures
        ({
            let rel = spec_split_path(songs[k].song_type->Local_path@).drop_last();
            let t = insert_songs_model(m, songs);
            &&& children_at(t, rel) is Some
            &&& children_at(t, rel)->Some_0.contains(NodeModel::Song(songs[k]))
        }),
    decreases songs.len(),
{
    let m1 = insert_song_model(m, songs[0]);
    if k == 0 {
        let rel = spec_split_path(songs[0].song_type->Local_path@).drop_last();
        lemma_insert_children_at(m, songs[0], rel);
        let cs = children_at(m1, rel)->Some_0;
        assert(cs.contains(NodeModel::Song(songs[0]))) by {
            assert(cs[cs.len() - 1] == NodeModel::Song(songs[0]));
        }
        lemma_insert_songs_model_preserves(
            m1,
            songs.drop_first(),
            rel,
            NodeModel::Song(songs[0]),
        );
    } else {
        assert(songs.drop_first()[k - 1] == songs[k]);
        lemma_insert_songs_model_reachable(m1, songs.drop_first(), k - 1);
    }
}

/// The structural invariants hold at every point of the build: a list of
/// insertions keeps the tree well-formed and keeps its display layout.
pub proof fn lemma_insert_songs_model_invariants(m: FolderModel, songs: Seq<Song>)
    requires
        model_wf(m),
        tree_layout(m),
    ensures
        model_wf(insert_songs_model(m, songs)),
        tree_layout(insert_songs_model(m, songs)),
    decreases songs.len(),
{
    if songs.len() == 0 {
    } else {
        match songs[0].song_type {
            SongType::Local { path } => {
                lemma_insert_model_wf(m, songs[0], spec_split_path(path@).drop_last());
                lemma_insert_preserves_layout(m, songs[0], spec_split_path(path@).drop_last());
            },
            _ => {},
        }
        lemma_insert_songs_model_invariants(insert_song_model(m, songs[0]), songs.drop_first());
    }
}

/// The media browser's position in the tree: the root folder and the
/// segments walked down from it, together with the cursor over the current
/// folder's children.
pub struct FolderHandler {
    pub root_folder: Folder,
    pub path_stack: Vec<String>,
    pub select_handler: SelectHandler<Node>,
}

/// The navigation position resolves against the tree.
pub open spec fn fh_resolvable(h: FolderHandler) -> bool {
    folder_at(h.root_folder@, h.path_stack.deep_view()) is Some
}

/// The folder the browser currently stands in.
pub open spec fn fh_current(h: FolderHandler) -> FolderModel {
    folder_at(h.root_folder@, h.path_stack.deep_view())->Some_0
}

/// The handler's invariant: the tree is well-formed, the position
/// resolves, and the cursor shows exactly the current folder's children.
pub open spec fn fh_wf(h: FolderHandler) -> bool {
    &&& fh_resolvable(h)
    &&& model_wf(h.root_folder@)
    &&& h.select_handler.wf()
    &&& nodes_view(h.select_handler.spec_items()) == fh_current(h).children
}

impl FolderHandler {
    /// Starts browsing a tree at its root.
    pub fn new(root_folder: Folder) -> (r: Self)
        requires
            model_wf(root_folder@),
        ensures
            fh_wf(r),
            r.root_folder@ == root_folder@,
            r.path_stack@.len() == 0,
    {
        let mut s = FolderHandler {
            path_stack: Vec::new(),
            root_folder,
            select_handler: SelectHandler::new(),
        };
        proof {
            assert(s.path_stack.deep_view() =~= Seq::<Seq<char>>::empty());
        }
        s.populate_select_handler();
        s
    }

    /// Reloads the cursor with the current folder's children.
    fn populate_select_handler(&mut self)
        requires
            fh_resolvable(*old(self)),
        ensures
            final(self).root_folder == old(self).root_folder,
            final(self).path_stack == old(self).path_stack,
            final(self).select_handler.wf(),
            nodes_view(final(self).select_handler.spec_items()) == fh_current(*final(self)).children,
            final(self).select_handler.spec_selected() == if fh_current(
                *final(self),
            ).children.len() > 0 {
                Option::Some(0usize)
            } else {
                Option::None::<usize>
            },
    {
        let items = clone_nodes(self.current_folder().get_children());
        self.select_handler.set_items(items);
    }

    /// The folder the path stack points at, walking down from the root.
    pub fn current_folder(&self) -> (r: &Folder)
        requires
            fh_resolvable(*self),
        ensures
            r@ == fh_current(*self),
    {
        let ghost sdv = self.path_stack.deep_view();
        let mut cur: &Folder = &self.root_folder;
        let n = self.path_stack.len();
        let mut i: usize = 0;
        proof {
            assert(sdv.skip(0) =~= sdv);
        }
        while i < n
            invariant
                i <= n,
                n == self.path_stack@.len(),
                sdv == self.path_stack.deep_view(),
                folder_at(self.root_folder@, sdv) is Some,
                folder_at(cur@, sdv.skip(i as int)) == folder_at(self.root_folder@, sdv),
            decreases n - i,
        {
            let mut cpath = clone_string_vec(&cur.path);
            cpath.push(self.path_stack[i].clone());
            proof {
                assert(cpath.deep_view() =~= cur@.path.push(sdv[i as int]));
                assert(sdv.skip(i as int)[0] == sdv[i as int]);
                assert(sdv.skip(i as int).drop_first() =~= sdv.skip(i + 1 as int));
                assert(sdv.skip(i as int).len() > 0);
            }
            match cur.get_folder_at_path(&cpath) {
                Some(g) => {
                    cur = g;
                },
                None => {
                    proof {
                        assert(false);
                    }
                },
            }
            i += 1;
        }
        proof {
            assert(sdv.skip(n as int) =~= Seq::<Seq<char>>::empty());
        }
        cur
    }

    /// Inserts scanned songs into the tree, each under its parent
    /// directory. Insertion happens while the browser stands at the root of
    /// a tree whose own identity is the empty path.
    pub fn insert_songs(&mut self, songs: Vec<Song>)
        requires
            fh_wf(*old(self)),
            old(self).root_folder@.path.len() == 0,
            old(self).path_stack@.len() == 0,
        ensures
            fh_wf(*final(self)),
            final(self).root_folder@ == insert_songs_model(old(self).root_folder@, songs@),
            final(self).path_stack@.len() == 0,
    {
        let ghost all = songs@;
        let mut songs = songs;
        proof {
            assert(songs@ =~= all.skip(0));
        }
        while songs.len() > 0
            invariant
                model_wf(self.root_folder@),
                self.root_folder@.path.len() == 0,
                self.path_stack@ == old(self).path_stack@,
                self.path_stack@.len() == 0,
                self.select_handler == old(self).select_handler,
                insert_songs_model(self.root_folder@, songs@) == insert_songs_model(
                    old(self).root_folder@,
                    all,
                ),
            decreases songs@.len(),
        {
            let ghost pre = songs@;
            let ghost root0 = self.root_folder@;
            let s = songs.remove(0);
            proof {
                assert(songs@ =~= pre.drop_first());
                assert(s == pre[0]);
            }
            let is_local = s.is_local();
            if is_local {
                let parent = match &s.song_type {
                    SongType::Local { path } => parent_segments(path.as_str()),
                    _ => Vec::new(),
                };
                proof {
                    assert(parent.deep_view() == spec_split_path(
                        s.song_type->Local_path@,
                    ).drop_last());
                    assert(self.root_folder@.path.is_prefix_of(parent.deep_view())) by {
                        assert(self.root_folder@.path =~= parent.deep_view().subrange(0, 0));
                    }
                    lemma_insert_model_wf(self.root_folder@, s, parent.deep_view());
                }
                self.root_folder.add_child_at_path(Node::Song(s), &parent);
                proof {
                    assert(parent.deep_view().skip(0) =~= parent.deep_view());
                    assert(self.root_folder@ == insert_song_model(root0, pre[0]));
                }
            } else {
                proof {
                    assert(self.root_folder@ == insert_song_model(root0, pre[0]));
                }
            }
        }
        proof {
            assert(songs@.len() == 0);
            assert(folder_at(self.root_folder@, self.path_stack.deep_view()) == Option::Some(
                self.root_folder@,
            )) by {
                assert(self.path_stack.deep_view().len() == 0);
            }
        }
        self.populate_select_handler();
    }

    /// Steps back up one level; a no-op at the root.
    pub fn go_to_parent(&mut self)
        requires
            fh_wf(*old(self)),
        ensures
            fh_wf(*final(self)),
            final(self).root_folder == old(self).root_folder,
            final(self).path_stack@ == if old(self).path_stack@.len() > 0 {
                old(self).path_stack@.drop_last()
            } else {
                old(self).path_stack@
            },
    {
        if self.path_stack.len() > 0 {
            let ghost sdv = old(self).path_stack.deep_view();
            self.path_stack.pop();
            proof {
                assert(self.path_stack.deep_view() =~= sdv.drop_last());
                lemma_folder_at_snoc(self.root_folder@, sdv.drop_last(), sdv.last());
                assert(sdv.drop_last().push(sdv.last()) =~= sdv);
            }
            self.populate_select_handler();
        }
    }

    /// Steps into the direct child folder whose identity is `path`.
    pub fn go_to_child(&mut self, path: &Vec<String>)
        requires
            fh_wf(*old(self)),
            find_folder(fh_current(*old(self)).children, path.deep_view()) is Some,
        ensures
            fh_wf(*final(self)),
            final(self).root_folder == old(self).root_folder,
            final(self).path_stack.deep_view() == old(self).path_stack.deep_view().push(
                path.deep_view().last(),
            ),
            fh_current(*final(self)) == find_folder(
                fh_current(*old(self)).children,
                path.deep_view(),
            )->Some_0,
    {
        let ghost m = self.root_folder@;
        let ghost sdv = self.path_stack.deep_view();
        let ghost t = fh_current(*old(self));
        let ghost pdv = path.deep_view();
        proof {
            lemma_folder_at_wf(m, sdv);
            lemma_find_folder_index(t.children, pdv);
            let i = find_folder_index(t.children, pdv)->Some_0;
            assert(t.children[i] is Folder);
            assert(t.children[i]->Folder_0.path == pdv);
            assert(pdv == t.path.push(pdv.last()));
            assert(pdv.len() == t.path.len() + 1);
            assert(path@.len() == pdv.len());
        }
        let seg = path[path.len() - 1].clone();
        self.path_stack.push(seg);
        proof {
            assert(self.path_stack.deep_view() =~= sdv.push(pdv.last()));
            lemma_folder_at_snoc(m, sdv, pdv.last());
            assert(folder_at(m, sdv.push(pdv.last())) == find_folder(
                t.children,
                t.path.push(pdv.last()),
            ));
        }
        self.populate_select_handler();
    }

    /// Returns to the root of the tree.
    pub fn go_to_root(&mut self)
        requires
            fh_wf(*old(self)),
        ensures
            fh_wf(*final(self)),
            final(self).root_folder == old(self).root_folder,
            final(self).path_stack@.len() == 0,
    {
        self.path_stack.clear();
        proof {
            assert(self.path_stack.deep_view().len() == 0);
        }
        self.populate_select_handler();
    }

    /// Moves the browser cursor one item up.
    pub fn select_handler_up(&mut self)
        requires
            fh_wf(*old(self)),
        ensures
            fh_wf(*final(self)),
            final(self).root_folder == old(self).root_folder,
            final(self).path_stack == old(self).path_stack,
            crate::selecthandler::cursor_up(old(self).select_handler, final(self).select_handler),
    {
        self.select_handler.up();
    }

    /// Moves the browser cursor one item down.
    pub fn select_handler_down(&mut self)
        requires
            fh_wf(*old(self)),
        ensures
            fh_wf(*final(self)),
            final(self).root_folder == old(self).root_folder,
            final(self).path_stack == old(self).path_stack,
            crate::selecthandler::cursor_down(
                old(self).select_handler,
                final(self).select_handler,
            ),
    {
        self.select_handler.down();
    }

    /// The child under the browser cursor, if any.
    pub fn select_handler_selected(&self) -> (r: Option<&Node>)
        requires
            fh_wf(*self),
        ensures
            match r {
                Option::Some(node) => {
                    &&& self.select_handler.spec_selected() matches Option::Some(i)
                    &&& node@ == fh_current(*self).children[
                        self.select_handler.spec_selected()->Some_0 as int
                    ]
                },
                Option::None => self.select_handler.spec_selected() is None,
            },
    {
        let r = self.select_handler.select();
        proof {
            if r matches Option::Some(node) {
                let i = self.select_handler.spec_selected()->Some_0;
                assert(nodes_view(self.select_handler.spec_items())[i as int] == node_view(
                    self.select_handler.spec_items()[i as int],
                ));
            }
        }
        r
    }

    /// Acts on the child under the cursor: a song is handed back to the
    /// caller to play, a folder is stepped into.
    pub fn select_handler_select(&mut self) -> (r: Option<Song>)
        requires
            fh_wf(*old(self)),
        ensures
            fh_wf(*final(self)),
            final(self).root_folder == old(self).root_folder,
            match old(self).select_handler.spec_selected() {
                Option::None => r is None && *final(self) == *old(self),
                Option::Some(i) => match fh_current(*old(self)).children[i as int] {
                    NodeModel::Song(s) => r == Option::Some(s) && *final(self) == *old(self),
                    NodeModel::Folder(g) => {
                        &&& r is None
                        &&& final(self).path_stack.deep_view() == old(
                            self,
                        ).path_stack.deep_view().push(g.path.last())
                        &&& fh_current(*final(self)).path == g.path
                    },
                },
            },
    {
        let ghost t = fh_current(*old(self));
        let mut nav: Option<Vec<String>> = None;
        let mut out: Option<Song> = None;
        match self.select_handler.select() {
            Some(node) => {
                proof {
                    let i = self.select_handler.spec_selected()->Some_0;
                    assert(nodes_view(self.select_handler.spec_items())[i as int] == node_view(
                        self.select_handler.spec_items()[i as int],
                    ));
                }
                match node {
                    Node::Song(song) => {
                        out = Some(song.clone());
                    },
                    Node::Folder(folder) => {
                        nav = Some(clone_string_vec(&folder.path));
                        proof {
                            let i = self.select_handler.spec_selected()->Some_0;
                            assert(t.children[i as int] == NodeModel::Folder(folder@));
                            assert(folder@.path == folder.path.deep_view());
                        }
                    },
                }
            },
            None => {},
        }
        match &nav {
            Some(p) => {
                proof {
                    let i = old(self).select_handler.spec_selected()->Some_0;
                    let g = t.children[i as int]->Folder_0;
                    assert(p.deep_view() =~= g.path);
                    assert(matches_folder(t.children[i as int], p.deep_view()));
                    lemma_find_folder_index(t.children, p.deep_view());
                    if find_folder_index(t.children, p.deep_view()) is None {
                        assert(!matches_folder(t.children[i as int], p.deep_view()));
                        assert(false);
                    }
                    lemma_find_folder_index(t.children, p.deep_view());
                    let fi = find_folder_index(t.children, p.deep_view())->Some_0;
                    assert(get_folder(t.children[fi]).path == p.deep_view());
                }
                self.go_to_child(p);
            },
            None => {},
        }
        out
    }
}

impl Clone for Node {
    /// A clone has the same image: the same tree of folders and songs.
    fn clone(&self) -> (r: Self)
        ensures
            r@ == self@,
        decreases *self,
    {
        match self {
            Node::Folder(f) => Node::Folder(f.clone()),
            Node::Song(s) => Node::Song(s.clone()),
        }
    }
}

impl Clone for Folder {
    /// A clone has the same image: the same identity and the same subtree.
    fn clone(&self) -> (r: Self)
        ensures
            r@ == self@,
        decreases *self,
    {
        let mut children: Vec<Node> = Vec::new();
        let n = self.children.len();
        let mut i: usize = 0;
        while i < n
            invariant
                i <= n,
                n == self.children@.len(),
                children@.len() == i,
                forall|j: int| 0 <= j < i ==> node_view(#[trigger] children@[j]) == node_view(
                    self.children@[j],
                ),
            decreases n - i,
        {
            children.push(self.children[i].clone());
            i += 1;
        }
        let r = Folder {
            name: self.name.clone(),
            path: clone_string_vec(&self.path),
            children,
        };
        proof {
            assert(r.path.deep_view() =~= self.path.deep_view());
            assert(r@.children =~= self@.children);
            assert(r@ =~= self@);
        }
        r
    }
}

/// Clones a child list; the clone's images match element for element.
pub fn clone_nodes(v: &Vec<Node>) -> (r: Vec<Node>)
    ensures
        nodes_view(r@) == nodes_view(v@),
{
    let mut r: Vec<Node> = Vec::new();
    let mut i: usize = 0;
    let n = v.len();
    while i < n
        invariant
            i <= n,
            n == v@.len(),
            r@.len() == i,
            forall|j: int| 0 <= j < i ==> node_view(#[trigger] r@[j]) == node_view(v@[j]),
        decreases n - i,
    {
        r.push(v[i].clone());
        i += 1;
    }
    proof {
        assert(nodes_view(r@) =~= nodes_view(v@));
    }
    r
}

} // verus!
