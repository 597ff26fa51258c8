use vstd::prelude::*;

verus! {

/// The immutable intent of a container: what to run, and where.
#[derive(Debug)]
pub struct Spec {
    /// Absolute path of the container's filesystem root.
    pub rootfs: String,
    /// Program path (inside `rootfs`) followed by its arguments.
    pub argv: Vec<String>,
    /// Environment pairs, in order; keys may repeat.
    pub env: Vec<(String, String)>,
    /// Working directory inside the container, if any.
    pub cwd: Option<String>,
    /// Host name of the container's UTS namespace, if any.
    pub hostname: Option<String>,
}

/// Mathematical value of a [`Spec`].
pub struct SpecView {
    pub rootfs: Seq<char>,
    pub argv: Seq<Seq<char>>,
    pub env: Seq<(Seq<char>, Seq<char>)>,
    pub cwd: Option<Seq<char>>,
    pub hostname: Option<Seq<char>>,
}

pub open spec fn strings_view(v: Seq<String>) -> Seq<Seq<char>> {
    v.map_values(|s: String| s@)
}

pub open spec fn pairs_view(v: Seq<(String, String)>) -> Seq<(Seq<char>, Seq<char>)> {
    v.map_values(|p: (String, String)| (p.0@, p.1@))
}

pub open spec fn opt_view(o: Option<String>) -> Option<Seq<char>> {
    match o {
        Some(s) => Some(s@),
        None => None,
    }
}

impl View for Spec {
    type V = SpecView;

    open spec fn view(&self) -> SpecView {
        SpecView {
            rootfs: self.rootfs@,
            argv: strings_view(self.argv@),
            env: pairs_view(self.env@),
            cwd: opt_view(self.cwd),
            hostname: opt_view(self.hostname),
        }
    }
}

/// Copies a list of strings.
pub fn copy_strings(v: &Vec<String>) -> (r: Vec<String>)
    ensures
        strings_view(r@) == strings_view(v@),
{
    let mut r: Vec<String> = Vec::new();
    let mut i: usize = 0;
    while i < v.len()
        invariant
            i <= v.len(),
            r@.len() == i,
            forall|j: int| 0 <= j < i ==> r@[j]@ == v@[j]@,
        decreases v.len() - i,
    {
        r.push(v[i].clone());
        i += 1;
    }
    assert(strings_view(r@) =~= strings_view(v@));
    r
}

/// Copies a list of string pairs.
pub fn copy_pairs(v: &Vec<(String, String)>) -> (r: Vec<(String, String)>)
    ensures
        pairs_view(r@) == pairs_view(v@),
{
    let mut r: Vec<(String, String)> = Vec::new();
    let mut i: usize = 0;
    while i < v.len()
        invariant
            i <= v.len(),
            r@.len() == i,
            forall|j: int| 0 <= j < i ==> r@[j].0@ == v@[j].0@ && r@[j].1@ == v@[j].1@,
        decreases v.len() - i,
    {
        r.push((v[i].0.clone(), v[i].1.clone()));
        i += 1;
    }
    assert(pairs_view(r@) =~= pairs_view(v@));
    r
}

/// Copies an optional string.
pub fn copy_opt(o: &Option<String>) -> (r: Option<String>)
    ensures
        opt_view(r) == opt_view(*o),
{
    match o {
        Some(s) => Some(s.clone()),
        None => None,
    }
}

impl Spec {
    /// An independent copy of this spec.
    pub fn duplicate(&self) -> (r: Spec)
        ensures
            r@ == self@,
    {
        Spec {
            rootfs: self.rootfs.clone(),
            argv: copy_strings(&self.argv),
            env: copy_pairs(&self.env),
            cwd: copy_opt(&self.cwd),
            hostname: copy_opt(&self.hostname),
        }
    }
}

} // verus!
