//! Paths below the project root, and the search for that root.
//!
//! A path is kept as text whose components are separated by `/`. The text is
//! taken as normalised: one separator between two components, and none at
//! the end. The root is the nearest directory, at or above a starting path,
//! that carries the marker name; the search gives up after a fixed number of
//! steps upward.

use crate::singleton::Singleton;
use vstd::prelude::*;

verus! {

/// Name of the directory that marks the project root.
pub const ROOT_NAME: &'static str = "DocTour-AI";

/// How many steps above the starting path the root may lie.
pub const MAX_HOPS: u8 = 10;

/// Index at which the last component of `p` starts: just behind the last
/// separator, or 0 where `p` holds none.
pub open spec fn name_start(p: Seq<char>) -> int
    decreases p.len(),
{
    if p.len() == 0 {
        0
    } else if p.last() == '/' {
        p.len() as int
    } else {
        name_start(p.drop_last())
    }
}

/// The last component of `p`: what stands behind the last separator. It is
/// empty where `p` is empty or ends in a separator.
pub open spec fn file_name(p: Seq<char>) -> Seq<char> {
    p.skip(name_start(p))
}

/// `p` without its last component and the separator before it; `None` where
/// `p` holds no separator. What stands before the last separator is kept as
/// it is: the parent of `/a` is the empty text.
pub open spec fn parent(p: Seq<char>) -> Option<Seq<char>> {
    if name_start(p) == 0 {
        None
    } else {
        Some(p.take(name_start(p) - 1))
    }
}

/// `p` extended by `name`. A `name` that starts at the separator is absolute
/// and stands alone; otherwise it follows `p`, with one separator between the
/// two unless `p` is empty or already ends in one.
pub open spec fn pushed(p: Seq<char>, name: Seq<char>) -> Seq<char> {
    if name.len() > 0 && name[0] == '/' {
        name
    } else if p.len() == 0 || p.last() == '/' {
        p + name
    } else {
        p + seq!['/'] + name
    }
}

/// `p` extended by each of `names` in turn.
pub open spec fn joined(p: Seq<char>, names: Seq<Seq<char>>) -> Seq<char>
    decreases names.len(),
{
    if names.len() == 0 {
        p
    } else {
        pushed(joined(p, names.drop_last()), names.last())
    }
}

/// Whether `p` names the project root: its last component is the marker.
pub open spec fn is_root(p: Seq<char>) -> bool {
    file_name(p) == ROOT_NAME@
}

/// The directory `hops` steps above `p`, where there is one.
pub open spec fn ancestor(p: Seq<char>, hops: nat) -> Option<Seq<char>>
    decreases hops,
{
    if hops == 0 {
        Some(p)
    } else {
        match parent(p) {
            Some(up) => ancestor(up, (hops - 1) as nat),
            None => None,
        }
    }
}

/// The first root met on the way up from `p`, `p` itself included, within
/// `budget` steps.
pub open spec fn nearest_root(p: Seq<char>, budget: nat) -> Option<Seq<char>>
    decreases budget,
{
    if is_root(p) {
        Some(p)
    } else if budget == 0 {
        None
    } else {
        match parent(p) {
            Some(up) => nearest_root(up, (budget - 1) as nat),
            None => None,
        }
    }
}

/// The directory of model schemas below `root`.
pub open spec fn models_dir(root: Seq<char>) -> Seq<char> {
    pushed(pushed(root, "adam"@), "schemas"@)
}

/// The directory of assets below `root`.
pub open spec fn assets_dir(root: Seq<char>) -> Seq<char> {
    pushed(pushed(root, "adam"@), "assets"@)
}

/// What `name_start` picks out: no separator lies at or behind it, and one
/// lies just before it unless it is 0.
pub proof fn lemma_name_start(p: Seq<char>)
    ensures
        0 <= name_start(p) <= p.len(),
        name_start(p) > 0 ==> p[name_start(p) - 1] == '/',
        forall|j: int| name_start(p) <= j < p.len() ==> p[j] != '/',
    decreases p.len(),
{
    if p.len() > 0 && p.last() != '/' {
        let front = p.drop_last();
        lemma_name_start(front);
        assert forall|j: int| name_start(p) <= j < p.len() implies p[j] != '/' by {
            if j < front.len() {
                assert(p[j] == front[j]);
            }
        }
    }
}

/// A root found by the search is an ancestor of the starting path at most
/// `budget` steps up, it carries the marker name, and no path nearer to the
/// start does.
pub proof fn lemma_nearest_root_is_nearest(p: Seq<char>, budget: nat)
    requires
        nearest_root(p, budget) is Some,
    ensures
        is_root(nearest_root(p, budget)->0),
        exists|k: nat|
            k <= budget && #[trigger] ancestor(p, k) == nearest_root(p, budget) && forall|j: nat|
                j < k ==> (#[trigger] ancestor(p, j)) is Some && !is_root(ancestor(p, j)->0),
    decreases budget,
{
    if is_root(p) {
        assert(ancestor(p, 0) == nearest_root(p, budget));
    } else {
        let up = parent(p)->0;
        let rest = (budget - 1) as nat;
        lemma_nearest_root_is_nearest(up, rest);
        let k0 = choose|k: nat|
            k <= rest && #[trigger] ancestor(up, k) == nearest_root(up, rest) && forall|j: nat|
                j < k ==> (#[trigger] ancestor(up, j)) is Some && !is_root(ancestor(up, j)->0);
        let k = k0 + 1;
        assert(ancestor(p, k) == ancestor(up, k0));
        assert forall|j: nat| j < k implies (#[trigger] ancestor(p, j)) is Some && !is_root(
            ancestor(p, j)->0,
        ) by {
            if j > 0 {
                assert(ancestor(p, j) == ancestor(up, (j - 1) as nat));
            }
        }
        assert(k <= budget && ancestor(p, k) == nearest_root(p, budget));
    }
}

/// The search fails exactly when none of the starting path and its ancestors
/// up to `budget` steps carries the marker name.
pub proof fn lemma_no_root_in_reach(p: Seq<char>, budget: nat)
    ensures
        nearest_root(p, budget) is None <==> forall|k: nat|
            k <= budget && (#[trigger] ancestor(p, k)) is Some ==> !is_root(ancestor(p, k)->0),
    decreases budget,
{
    if is_root(p) {
        assert(ancestor(p, 0) == Some(p));
    } else if budget == 0 {
    } else {
        match parent(p) {
            Some(up) => {
                let rest = (budget - 1) as nat;
                lemma_no_root_in_reach(up, rest);
                if nearest_root(up, rest) is None {
                    assert forall|k: nat|
                        k <= budget && (#[trigger] ancestor(p, k)) is Some implies !is_root(
                        ancestor(p, k)->0,
                    ) by {
                        if k > 0 {
                            assert(ancestor(p, k) == ancestor(up, (k - 1) as nat));
                        }
                    }
                } else {
                    let k0 = choose|k: nat|
                        k <= rest && (#[trigger] ancestor(up, k)) is Some && is_root(
                            ancestor(up, k)->0,
                        );
                    assert(ancestor(p, k0 + 1) == ancestor(up, k0));
                }
            },
            None => {
                assert forall|k: nat|
                    k <= budget && (#[trigger] ancestor(p, k)) is Some implies !is_root(
                    ancestor(p, k)->0,
                ) by {
                    if k > 0 {
                        assert(ancestor(p, k) is None);
                    }
                }
            },
        }
    }
}

/// Resolving is idempotent: the search that starts at a root it has found
/// finds that root again, with any budget.
pub proof fn lemma_root_resolves_to_itself(p: Seq<char>, budget: nat, again: nat)
    requires
        nearest_root(p, budget) is Some,
    ensures
        nearest_root(nearest_root(p, budget)->0, again) == nearest_root(p, budget),
{
    lemma_nearest_root_is_nearest(p, budget);
}

/// Two names pushed one after the other give what the two give when they
/// are pushed as one, with a separator between them. The first name is not
/// empty and has no separator at either end, the second has none in front.
pub proof fn lemma_pushed_twice(p: Seq<char>, first: Seq<char>, second: Seq<char>)
    requires
        first.len() > 0,
        first[0] != '/',
        first.last() != '/',
        second.len() > 0 ==> second[0] != '/',
    ensures
        pushed(pushed(p, first), second) == pushed(p, first + seq!['/'] + second),
{
    let whole = first + seq!['/'] + second;
    assert(whole[0] == first[0]);
    assert(pushed(p, first).last() == first.last());
    if p.len() == 0 || p.last() == '/' {
        assert(p + first + seq!['/'] + second =~= p + whole);
    } else {
        assert(p + seq!['/'] + first + seq!['/'] + second =~= p + seq!['/'] + whole);
    }
}

/// Why a path could not be resolved.
#[derive(Clone, Copy, Debug, PartialEq, Eq)]
pub enum PathError {
    /// No directory with the marker name lies within reach of the start.
    RootNotFound,
}

/// A path in the file system, as text.
///
/// The text is taken as it stands, and is meant to be normalised: one `/`
/// between two components and none at the end. Nothing is tidied on the way
/// in, and `file_name` and `parent` cut at the last separator that the text
/// holds. So on text that is not normalised each separator counts: a path
/// that ends in `/` has an empty last component and is its own text without
/// that `/` one step up, `a//b` lies two steps below `a`, and the parent of
/// `/a` is the empty text, which stands for the top and has no parent.
#[derive(Debug, PartialEq, Eq)]
pub struct SysPath {
    text: String,
}

impl View for SysPath {
    type V = Seq<char>;

    closed spec fn view(&self) -> Seq<char> {
        self.text@
    }
}

impl Clone for SysPath {
    fn clone(&self) -> (copy: SysPath)
        ensures
            copy@ == self@,
    {
        SysPath { text: self.text.clone() }
    }
}

impl SysPath {
    /// The path that `text` spells.
    pub fn new(text: &str) -> (path: SysPath)
        ensures
            path@ == text@,
    {
        SysPath { text: String::from_str(text) }
    }

    /// The text of the path.
    pub fn as_str(&self) -> (text: &str)
        ensures
            text@ == self@,
    {
        self.text.as_str()
    }

    fn last_start(&self) -> (at: usize)
        ensures
            at == name_start(self@),
    {
        let text = self.text.as_str();
        let mut at: usize = text.unicode_len();
        proof {
            assert(text@.take(at as int) =~= text@);
        }
        while at > 0 && text.get_char(at - 1) != '/'
            invariant
                text@ == self@,
                at <= text@.len(),
                name_start(self@) == name_start(text@.take(at as int)),
            decreases at,
        {
            proof {
                assert(text@.take(at as int).drop_last() =~= text@.take(at - 1));
            }
            at = at - 1;
        }
        at
    }

    /// The last component of the path.
    pub fn file_name(&self) -> (name: String)
        ensures
            name@ == file_name(self@),
    {
        let at = self.last_start();
        let text = self.text.as_str();
        proof {
            lemma_name_start(self@);
        }
        let len = text.unicode_len();
        String::from_str(text.substring_char(at, len))
    }

    /// The directory that holds the path, where the path names one.
    pub fn parent(&self) -> (up: Option<SysPath>)
        ensures
            up is Some <==> parent(self@) is Some,
            up matches Some(dir) ==> parent(self@) == Some(dir@),
    {
        let at = self.last_start();
        if at == 0 {
            None
        } else {
            proof {
                lemma_name_start(self@);
            }
            let text = self.text.as_str();
            Some(SysPath { text: String::from_str(text.substring_char(0, at - 1)) })
        }
    }

    /// Whether the path names the project root.
    pub fn is_root(&self) -> (found: bool)
        ensures
            found == is_root(self@),
    {
        let name = self.file_name();
        let marker = String::from_str(ROOT_NAME);
        name == marker
    }

    /// Extends the path by `name`.
    pub fn push(&mut self, name: &str)
        ensures
            final(self)@ == pushed(old(self)@, name@),
    {
        if name.unicode_len() > 0 && name.get_char(0) == '/' {
            self.text = String::from_str(name);
        } else {
            let len = self.text.as_str().unicode_len();
            if len > 0 && self.text.as_str().get_char(len - 1) != '/' {
                proof {
                    reveal_strlit("/");
                    assert("/"@ =~= seq!['/']);
                }
                self.text.append("/");
            }
            self.text.append(name);
        }
    }
}

/// The project's paths: everything is anchored at the root.
#[derive(Debug, PartialEq, Eq)]
pub struct Path {
    root: SysPath,
}

impl View for Path {
    type V = Seq<char>;

    closed spec fn view(&self) -> Seq<char> {
        self.root@
    }
}

impl Clone for Path {
    fn clone(&self) -> (copy: Path)
        ensures
            copy@ == self@,
    {
        proof {
            use_type_invariant(self);
        }
        Path { root: self.root.clone() }
    }
}

impl Path {
    /// What is anchored is a root: its last component is the marker name.
    #[verifier::type_invariant]
    spec fn anchored(self) -> bool {
        is_root(self.root@)
    }

    /// Resolves the root from the executable's path and anchors at it.
    pub fn new(exe: &SysPath) -> (paths: Result<Path, PathError>)
        ensures
            match paths {
                Ok(found) => nearest_root(exe@, MAX_HOPS as nat) == Some(found@) && is_root(
                    found@,
                ),
                Err(why) => why == PathError::RootNotFound && nearest_root(exe@, MAX_HOPS as nat)
                    is None,
            },
    {
        match Path::find_root(exe) {
            Ok(root) => {
                proof {
                    lemma_nearest_root_is_nearest(exe@, MAX_HOPS as nat);
                }
                Ok(Path { root })
            },
            Err(why) => Err(why),
        }
    }

    /// One access to the store of the paths: resolves with `load` where the
    /// store is vacant, and hands out the paths that the store then holds.
    /// Once the store holds an outcome, `load` is not run again.
    pub fn get<E, F: FnOnce() -> Result<Path, E>>(store: &mut Singleton<Path, E>, load: F) -> (paths:
        Option<Path>)
        requires
            *old(store) is Vacant ==> load.requires(()),
        ensures
            old(store).accessed(*final(store), load),
            match *final(store) {
                Singleton::Ready(held) => paths matches Some(found) && found@ == held@,
                _ => paths is None,
            },
    {
        store.load_with(load);
        match store.get() {
            Some(held) => Some(held.clone()),
            None => None,
        }
    }

    /// The root itself.
    pub fn root(&self) -> (root: &SysPath)
        ensures
            root@ == self@,
            is_root(self@),
    {
        proof {
            use_type_invariant(self);
        }
        &self.root
    }

    /// The file `file_name` among the model schemas.
    pub fn get_model(&self, file_name: &str) -> (path: SysPath)
        ensures
            path@ == pushed(models_dir(self@), file_name@),
    {
        Path::join(&self.get_models(), String::from_str(file_name))
    }

    /// The file `file_name` among the raw chats.
    pub fn get_raw_chat(&self, file_name: &str) -> (path: SysPath)
        ensures
            path@ == pushed(pushed(assets_dir(self@), "raw_chats"@), file_name@),
    {
        let raw_chat_path = Path::join(&self.get_assets(), String::from_str("raw_chats"));
        Path::join(&raw_chat_path, String::from_str(file_name))
    }

    /// The file `file_name` among the processed chats.
    pub fn get_processed_chat(&self, file_name: &str) -> (path: SysPath)
        ensures
            path@ == pushed(pushed(assets_dir(self@), "processed_chats"@), file_name@),
    {
        let processed_chat_path = Path::join(
            &self.get_assets(),
            String::from_str("processed_chats"),
        );
        Path::join(&processed_chat_path, String::from_str(file_name))
    }

    /// The directory of model schemas.
    pub fn get_models(&self) -> (path: SysPath)
        ensures
            path@ == models_dir(self@),
    {
        self.join_two("adam", "schemas")
    }

    /// The directory of assets.
    pub fn get_assets(&self) -> (path: SysPath)
        ensures
            path@ == assets_dir(self@),
    {
        self.join_two("adam", "assets")
    }

    /// The root extended by two names, one after the other.
    pub fn join_two(&self, first: &str, second: &str) -> (joined_path: SysPath)
        ensures
            joined_path@ == pushed(pushed(self@, first@), second@),
    {
        let mut names: Vec<&str> = Vec::new();
        names.push(first);
        names.push(second);
        proof {
            let all = names.deep_view();
            assert(all.drop_last() =~= seq![first@]);
            assert(all.drop_last().drop_last() =~= Seq::<Seq<char>>::empty());
            reveal_with_fuel(joined, 3);
        }
        self.join_root(names)
    }

    /// The root extended by each of the names in turn.
    pub fn join_root(&self, file_folder_names: Vec<&str>) -> (joined_path: SysPath)
        ensures
            joined_path@ == joined(self@, file_folder_names.deep_view()),
    {
        let mut joined_path = self.root.clone();
        let ghost names = file_folder_names.deep_view();
        let mut at: usize = 0;
        while at < file_folder_names.len()
            invariant
                at <= file_folder_names.len(),
                names == file_folder_names.deep_view(),
                joined_path@ == joined(self@, names.take(at as int)),
            decreases file_folder_names.len() - at,
        {
            proof {
                assert(names.take(at + 1).drop_last() =~= names.take(at as int));
                assert(names.take(at + 1).last() == file_folder_names[at as int]@);
            }
            joined_path.push(file_folder_names[at]);
            at = at + 1;
        }
        proof {
            assert(names.take(at as int) =~= names);
        }
        joined_path
    }

    /// `path` extended by one name.
    pub fn join(path: &SysPath, file_folder_name: String) -> (joined_path: SysPath)
        ensures
            joined_path@ == pushed(path@, file_folder_name@),
    {
        let mut joined_path = path.clone();
        joined_path.push(file_folder_name.as_str());
        joined_path
    }

    /// Walks up from the executable's path to the nearest directory with the
    /// marker name, the executable's own path included, and gives up after
    /// `MAX_HOPS` steps or where the path ends.
    pub fn find_root(exe: &SysPath) -> (found: Result<SysPath, PathError>)
        ensures
            match found {
                Ok(root) => nearest_root(exe@, MAX_HOPS as nat) == Some(root@) && is_root(root@),
                Err(why) => why == PathError::RootNotFound && nearest_root(exe@, MAX_HOPS as nat)
                    is None,
            },
    {
        let mut root = exe.clone();
        let mut tries: u8 = 0;
        loop
            invariant
                tries <= MAX_HOPS,
                nearest_root(exe@, MAX_HOPS as nat) == nearest_root(
                    root@,
                    (MAX_HOPS - tries) as nat,
                ),
            decreases MAX_HOPS - tries,
        {
            if root.is_root() {
                return Ok(root);
            }
            if tries >= MAX_HOPS {
                return Err(PathError::RootNotFound);
            }
            match root.parent() {
                Some(up) => {
                    root = up;
                    tries = tries + 1;
                },
                None => {
                    return Err(PathError::RootNotFound);
                },
            }
        }
    }
}

} // verus!
