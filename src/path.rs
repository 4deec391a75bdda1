use vstd::prelude::*;

verus! {

/// An absolute path, held as its components from the root down. The root
/// itself has no components; so has the empty path, which a creation record
/// carries in place of a source.
pub struct FsPath {
    pub parts: Vec<String>,
}

/// The characters of each string, in order.
pub open spec fn views_of(v: Seq<String>) -> Seq<Seq<char>> {
    v.map_values(|s: String| s@)
}

impl View for FsPath {
    type V = Seq<Seq<char>>;

    open spec fn view(&self) -> Seq<Seq<char>> {
        views_of(self.parts@)
    }
}

/// A copy of a list of strings, element by element.
fn copy_strings(v: &Vec<String>) -> (r: Vec<String>)
    ensures
        views_of(r@) == views_of(v@),
{
    let mut r: Vec<String> = Vec::new();
    let mut i: usize = 0;
    while i < v.len()
        invariant
            i <= v@.len(),
            r@.len() == i,
            forall|k: int| 0 <= k < i ==> #[trigger] r@[k]@ == v@[k]@,
        decreases v@.len() - i,
    {
        let c = v[i].clone();
        assert(c@ == v@[i as int]@);
        r.push(c);
        i = i + 1;
    }
    assert(views_of(r@) =~= views_of(v@));
    r
}

impl FsPath {
    /// The root, or the empty path.
    pub fn root() -> (r: FsPath)
        ensures
            r@ == Seq::<Seq<char>>::empty(),
    {
        let r = FsPath { parts: Vec::new() };
        assert(r@ =~= Seq::<Seq<char>>::empty());
        r
    }

    /// The path made of the given components.
    pub fn from_parts(parts: Vec<String>) -> (r: FsPath)
        ensures
            r@ == views_of(parts@),
    {
        FsPath { parts }
    }

    /// Its components, from the root down.
    pub fn parts(&self) -> (r: &Vec<String>)
        ensures
            views_of(r@) == self@,
    {
        &self.parts
    }

    /// A second path with the same components.
    pub fn duplicate(&self) -> (r: FsPath)
        ensures
            r@ == self@,
    {
        FsPath { parts: copy_strings(&self.parts) }
    }

    /// The path of the entry `name` inside this one.
    pub fn join(&self, name: &str) -> (r: FsPath)
        ensures
            r@ == self@.push(name@),
    {
        let mut parts = copy_strings(&self.parts);
        parts.push(String::from_str(name));
        let r = FsPath { parts };
        assert(r@ =~= self@.push(name@));
        r
    }

    /// The directory that holds this path; none for the root.
    pub fn parent(&self) -> (r: Option<FsPath>)
        ensures
            r is None <==> self@.len() == 0,
            r matches Some(p) ==> p@ == self@.drop_last(),
    {
        let n = self.parts.len();
        if n == 0 {
            return None;
        }
        let mut parts = copy_strings(&self.parts);
        parts.pop();
        let r = FsPath { parts };
        assert(r@ =~= self@.drop_last());
        Some(r)
    }

    /// The last component; none for the root.
    pub fn file_name(&self) -> (r: Option<String>)
        ensures
            r is None <==> self@.len() == 0,
            r matches Some(s) ==> s@ == self@.last(),
    {
        let n = self.parts.len();
        if n == 0 {
            None
        } else {
            Some(self.parts[n - 1].clone())
        }
    }
}

} // verus!
