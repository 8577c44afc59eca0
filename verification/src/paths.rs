use vstd::prelude::*;
use vstd::string::*;

verus! {

/// A filesystem path as `std::path::Path::components` yields it: the anchor
/// (a Windows prefix such as `C:` and the root, when the path has them) and the
/// names after it.
pub struct BundlePath {
    pub anchor: Vec<String>,
    pub parts: Vec<String>,
}

/// A path as mathematical values.
pub struct BundlePathView {
    pub anchor: Seq<Seq<char>>,
    pub parts: Seq<Seq<char>>,
}

impl BundlePathView {
    /// The path with `name` appended.
    pub open spec fn join(self, name: Seq<char>) -> BundlePathView {
        BundlePathView { anchor: self.anchor, parts: self.parts.push(name) }
    }

    /// The path without its last name; a path has one when it has a name.
    pub open spec fn parent(self) -> BundlePathView {
        BundlePathView { anchor: self.anchor, parts: self.parts.drop_last() }
    }

    /// Whether the path has a parent: the anchor alone, or nothing, has none.
    pub open spec fn has_parent(self) -> bool {
        self.parts.len() >= 1
    }

    /// Whether the path has a last name and it equals `name`.
    pub open spec fn ends_with(self, name: Seq<char>) -> bool {
        self.parts.len() > 0 && self.parts.last() == name
    }
}

pub open spec fn texts_view(v: Vec<String>) -> Seq<Seq<char>> {
    v@.map_values(|s: String| s@)
}

impl View for BundlePath {
    type V = BundlePathView;

    open spec fn view(&self) -> BundlePathView {
        BundlePathView { anchor: texts_view(self.anchor), parts: texts_view(self.parts) }
    }
}

/// A copy of the first `n` texts of `v`.
fn copy_texts(v: &Vec<String>, n: usize) -> (r: Vec<String>)
    requires
        n <= v@.len(),
    ensures
        texts_view(r) == texts_view(*v).take(n as int),
{
    let mut out: Vec<String> = Vec::new();
    for i in 0..n
        invariant
            n <= v@.len(),
            out@.len() == i,
            forall|k: int| 0 <= k < i ==> #[trigger] out@[k]@ == v@[k]@,
    {
        out.push(v[i].clone());
    }
    assert(texts_view(out) =~= texts_view(*v).take(n as int));
    out
}

impl BundlePathView {
    /// The path whose last name is this path's last name followed by `suffix`.
    pub open spec fn with_name_suffix(self, suffix: Seq<char>) -> BundlePathView {
        self.parent().join(self.parts.last() + suffix)
    }
}

impl BundlePath {
    /// The same path with `suffix` added to the end of its last name, as
    /// `app-config.json` becomes `app-config.json.tmp`.
    pub fn with_name_suffix(&self, suffix: &str) -> (r: BundlePath)
        requires
            self@.has_parent(),
        ensures
            r@ == self@.with_name_suffix(suffix@),
    {
        let mut last: String = self.parts[self.parts.len() - 1].clone();
        last.append(suffix);
        self.parent().join(last.as_str())
    }

    /// The same path with `name` appended as a last component.
    pub fn join(&self, name: &str) -> (r: BundlePath)
        ensures
            r@ == self@.join(name@),
    {
        let anchor = copy_texts(&self.anchor, self.anchor.len());
        let mut parts = copy_texts(&self.parts, self.parts.len());
        let ghost before = parts@;
        assert(texts_view(self.parts).take(self.parts@.len() as int) =~= texts_view(self.parts));
        parts.push(name.to_owned());
        assert(parts@ == before.push(parts@.last()));
        let r = BundlePath { anchor, parts };
        assert(texts_view(self.anchor).take(self.anchor@.len() as int) =~= texts_view(self.anchor));
        assert forall|k: int| 0 <= k < r.parts@.len() implies #[trigger] texts_view(r.parts)[k]
            == texts_view(self.parts).push(name@)[k] by {
            if k < before.len() {
                assert(r.parts@[k] == before[k]);
                assert(texts_view(self.parts)[k] == before[k]@) by {
                    assert(texts_view(self.parts).take(self.parts@.len() as int)[k] == texts_view(self.parts)[k]);
                }
            }
        }
        assert(texts_view(r.parts) =~= texts_view(self.parts).push(name@));
        r
    }

    /// The path without its last name.
    pub fn parent(&self) -> (r: BundlePath)
        requires
            self@.has_parent(),
        ensures
            r@ == self@.parent(),
    {
        let anchor = copy_texts(&self.anchor, self.anchor.len());
        let parts = copy_texts(&self.parts, self.parts.len() - 1);
        let r = BundlePath { anchor, parts };
        assert(texts_view(self.anchor).take(self.anchor@.len() as int) =~= texts_view(self.anchor));
        assert(texts_view(r.parts) =~= texts_view(self.parts).drop_last());
        r
    }

    /// Whether the path has a last name and it equals `name`.
    pub fn ends_with(&self, name: &str) -> (r: bool)
        ensures
            r == self@.ends_with(name@),
    {
        let n = self.parts.len();
        if n == 0 {
            false
        } else {
            let last: &String = &self.parts[n - 1];
            *last == name.to_owned()
        }
    }
}

/// Law of path edits: appending a name keeps the anchor and every name before
/// it and adds exactly that name; the parent drops exactly the last name; a
/// name suffix changes only the last name, by adding the suffix to it.
pub proof fn lemma_path_edits(p: BundlePathView, name: Seq<char>, suffix: Seq<char>)
    ensures
        p.join(name).anchor == p.anchor,
        p.join(name).parts.len() == p.parts.len() + 1,
        p.join(name).parts.last() == name,
        p.join(name).parts.drop_last() == p.parts,
        p.parts.len() >= 1 ==> p.parent().anchor == p.anchor && p.parent().parts == p.parts.take(p.parts.len() - 1),
        p.parts.len() >= 1 ==> {
            let q = p.with_name_suffix(suffix);
            &&& q.anchor == p.anchor
            &&& q.parts.len() == p.parts.len()
            &&& q.parts.last() == p.parts.last() + suffix
            &&& forall|k: int| 0 <= k < p.parts.len() - 1 ==> #[trigger] q.parts[k] == p.parts[k]
        },
{
    assert(p.join(name).parts.drop_last() =~= p.parts);
    if p.parts.len() >= 1 {
        assert(p.parent().parts =~= p.parts.take(p.parts.len() - 1));
    }
}

} // verus!
