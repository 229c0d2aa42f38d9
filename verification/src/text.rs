//! Text layout helpers: which characters break lines and words, lookups in
//! a font's sorted glyph and kerning tables, and the order in which the
//! quads of laid-out text are drawn.

use vstd::prelude::*;

verus! {

/// Whether a character has the Unicode `White_Space` property (the
/// property `char::is_whitespace` reports): tab, line feed, vertical tab,
/// form feed, carriage return, space, next line, no-break space, Ogham
/// space mark, the spaces from en quad to hair space, line separator,
/// paragraph separator, narrow no-break space, medium mathematical space
/// and ideographic space.
pub open spec fn white_space(c: char) -> bool {
    ||| '\u{9}' <= c <= '\u{d}'
    ||| c == ' '
    ||| c == '\u{85}'
    ||| c == '\u{a0}'
    ||| c == '\u{1680}'
    ||| '\u{2000}' <= c <= '\u{200a}'
    ||| c == '\u{2028}'
    ||| c == '\u{2029}'
    ||| c == '\u{202f}'
    ||| c == '\u{205f}'
    ||| c == '\u{3000}'
}

/// Whether `c` has the Unicode `White_Space` property.
pub fn is_white_space(c: char) -> (r: bool)
    ensures
        r == white_space(c),
{
    ('\u{9}' <= c && c <= '\u{d}') || c == ' ' || c == '\u{85}' || c == '\u{a0}' || c == '\u{1680}'
        || ('\u{2000}' <= c && c <= '\u{200a}') || c == '\u{2028}' || c == '\u{2029}' || c
        == '\u{202f}' || c == '\u{205f}' || c == '\u{3000}'
}

/// Whether `ch` ends a line.
pub fn is_line_break(ch: char) -> (r: bool)
    ensures
        r == (ch == '\n'),
{
    ch == '\n'
}

/// The spaces that glue words together: no-break space, figure space and
/// narrow no-break space.
pub open spec fn spec_is_non_breaking(ch: char) -> bool {
    ch == '\u{a0}' || ch == '\u{2007}' || ch == '\u{202f}'
}

/// Whether `ch` is a space at which a line may wrap: any white space but
/// the non-breaking ones.
pub fn is_breaking_space(ch: char) -> (r: bool)
    ensures
        r == (white_space(ch) && !spec_is_non_breaking(ch)),
{
    if ch == '\u{a0}' || ch == '\u{2007}' || ch == '\u{202f}' {
        false
    } else {
        is_white_space(ch)
    }
}

/// Whether the keys are in ascending order.
pub open spec fn chars_sorted(keys: Seq<char>) -> bool {
    forall|i: int, j: int| 0 <= i <= j < keys.len() ==> keys[i] <= keys[j]
}

/// Find the glyph for `ch` in a glyph table sorted by character.
pub fn glyph_index(keys: &[char], ch: char) -> (r: Option<usize>)
    requires
        chars_sorted(keys@),
    ensures
        r matches Some(i) ==> i < keys@.len() && keys@[i as int] == ch,
        r is None <==> !keys@.contains(ch),
{
    let mut lo: usize = 0;
    let mut hi: usize = keys.len();
    while lo < hi
        invariant
            lo <= hi <= keys@.len(),
            chars_sorted(keys@),
            forall|i: int| 0 <= i < lo ==> keys@[i] < ch,
            forall|i: int| hi <= i < keys@.len() ==> ch < keys@[i],
        decreases hi - lo,
    {
        let mid = lo + (hi - lo) / 2;
        let k = keys[mid];
        if k < ch {
            lo = mid + 1;
        } else if ch < k {
            hi = mid;
        } else {
            assert(k == ch);
            return Some(mid);
        }
    }
    assert(!keys@.contains(ch)) by {
        if keys@.contains(ch) {
            let j = choose|j: int| 0 <= j < keys@.len() && keys@[j] == ch;
            assert(keys@[j] == ch);
        }
    }
    None
}

/// The order of character pairs: by left character, then right.
pub open spec fn pair_less(a: (char, char), b: (char, char)) -> bool {
    a.0 < b.0 || (a.0 == b.0 && a.1 < b.1)
}

/// Whether the pairs are in ascending order.
pub open spec fn pairs_sorted(pairs: Seq<(char, char)>) -> bool {
    forall|i: int, j: int| 0 <= i < j < pairs.len() ==> pair_less(pairs[i], pairs[j]) || pairs[i] == pairs[j]
}

/// Find the kerning entry for the pair `(left, right)` in a kerning table
/// sorted by pair.
pub fn kerning_index(pairs: &[(char, char)], left: char, right: char) -> (r: Option<usize>)
    requires
        pairs_sorted(pairs@),
    ensures
        r matches Some(i) ==> i < pairs@.len() && pairs@[i as int] == (left, right),
        r is None <==> !pairs@.contains((left, right)),
{
    let ghost key = (left, right);
    let mut lo: usize = 0;
    let mut hi: usize = pairs.len();
    while lo < hi
        invariant
            lo <= hi <= pairs@.len(),
            pairs_sorted(pairs@),
            key == (left, right),
            forall|i: int| 0 <= i < lo ==> pair_less(#[trigger] pairs@[i], key),
            forall|i: int| hi <= i < pairs@.len() ==> pair_less(key, #[trigger] pairs@[i]),
        decreases hi - lo,
    {
        let mid = lo + (hi - lo) / 2;
        let (a, b) = pairs[mid];
        if a < left || (a == left && b < right) {
            proof {
                assert forall|i: int| 0 <= i < mid + 1 implies pair_less(#[trigger] pairs@[i], key) by {
                    if i < mid {
                        assert(pair_less(pairs@[i], pairs@[mid as int]) || pairs@[i] == pairs@[mid as int]);
                    }
                }
            }
            lo = mid + 1;
        } else if left < a || (a == left && right < b) {
            proof {
                assert forall|i: int| mid <= i < pairs@.len() implies pair_less(key, #[trigger] pairs@[i]) by {
                    if i > mid {
                        assert(pair_less(pairs@[mid as int], pairs@[i]) || pairs@[mid as int] == pairs@[i]);
                    }
                }
            }
            hi = mid;
        } else {
            assert(a == left && b == right);
            return Some(mid);
        }
    }
    assert(!pairs@.contains(key)) by {
        if pairs@.contains(key) {
            let j = choose|j: int| 0 <= j < pairs@.len() && pairs@[j] == key;
            assert(pair_less(pairs@[j], key) || pair_less(key, pairs@[j]));
        }
    }
    None
}

/// The layer a glyph quad is drawn on.  Shadows are drawn before the
/// primary glyphs.
#[derive(Clone, Copy, Debug, PartialEq, Eq, Structural)]
pub enum Layer {
    Shadow,
    Primary,
}

impl Default for Layer {
    fn default() -> (r: Self)
        ensures
            r == Layer::Primary,
    {
        Layer::Primary
    }
}

/// The indices below `k` of the quads on `layer`, in ascending order.
pub open spec fn layer_run(layers: Seq<Layer>, layer: Layer, k: nat) -> Seq<int>
    decreases k,
{
    if k == 0 {
        Seq::empty()
    } else {
        let prev = layer_run(layers, layer, (k - 1) as nat);
        if layers[k - 1] == layer {
            prev.push(k - 1)
        } else {
            prev
        }
    }
}

/// The quad indices in drawing order: a stable sort by layer, so every
/// shadow quad in its original order, then every primary quad in its
/// original order.
pub open spec fn draw_order(layers: Seq<Layer>) -> Seq<int> {
    layer_run(layers, Layer::Shadow, layers.len()) + layer_run(layers, Layer::Primary, layers.len())
}

/// The vertex offsets of the two triangles of a quad whose vertices are
/// bottom-left, bottom-right, top-left and top-right.
pub open spec fn quad_corner(t: int) -> int {
    if t == 0 {
        0
    } else if t == 1 {
        1
    } else if t == 2 {
        2
    } else if t == 3 {
        1
    } else if t == 4 {
        3
    } else {
        2
    }
}

/// The triangle indices that draw the quads in `order`: six per quad.
pub open spec fn quad_indices(order: Seq<int>) -> Seq<int> {
    Seq::new(order.len() * 6, |i: int| 4 * order[i / 6] + quad_corner(i % 6))
}

/// The index buffer of a text object: first the layer of each quad as it
/// is laid out, then the final triangle indices.
#[derive(Clone, Debug)]
pub enum IndicesState {
    Unsorted(Vec<Layer>),
    Final(Vec<u16>),
}

/// The values of a `u16` index buffer as integers.
pub open spec fn u16_view(v: Seq<u16>) -> Seq<int> {
    v.map_values(|x: u16| x as int)
}

/// Push every index below `n` whose quad is on `layer`, in order.
fn push_layer_run(layers: &Vec<Layer>, layer: Layer, out: &mut Vec<u16>)
    requires
        layers@.len() <= 16384,
    ensures
        u16_view(final(out)@) == u16_view(old(out)@) + layer_run(layers@, layer, layers@.len()),
{
    let n = layers.len();
    let mut i: usize = 0;
    while i < n
        invariant
            n == layers@.len(),
            n <= 16384,
            i <= n,
            u16_view(out@) == u16_view(old(out)@) + layer_run(layers@, layer, i as nat),
        decreases n - i,
    {
        if layers[i] == layer {
            let ghost before = out@;
            out.push(i as u16);
            assert(layer_run(layers@, layer, (i + 1) as nat) == layer_run(layers@, layer, i as nat).push(i as int));
            assert(u16_view(out@) =~= u16_view(before).push(i as int));
            assert(u16_view(out@) =~= u16_view(old(out)@) + layer_run(layers@, layer, (i + 1) as nat));
        } else {
            assert(layer_run(layers@, layer, (i + 1) as nat) == layer_run(layers@, layer, i as nat));
        }
        i = i + 1;
    }
}

/// A run below `k` holds at most `k` indices, each below `k`, in strictly
/// ascending order, each on the run's layer.
pub proof fn lemma_layer_run_len(layers: Seq<Layer>, layer: Layer, k: nat)
    requires
        k <= layers.len(),
    ensures
        layer_run(layers, layer, k).len() <= k,
        forall|j: int| 0 <= j < layer_run(layers, layer, k).len() ==> {
            &&& 0 <= #[trigger] layer_run(layers, layer, k)[j] < k
            &&& layers[layer_run(layers, layer, k)[j]] == layer
        },
        forall|a: int, b: int| 0 <= a < b < layer_run(layers, layer, k).len() ==>
            layer_run(layers, layer, k)[a] < layer_run(layers, layer, k)[b],
    decreases k,
{
    if k > 0 {
        lemma_layer_run_len(layers, layer, (k - 1) as nat);
    }
}

/// Every index below `k` on the run's layer is in the run.
pub proof fn lemma_layer_run_complete(layers: Seq<Layer>, layer: Layer, k: nat, i: int)
    requires
        k <= layers.len(),
        0 <= i < k,
        layers[i] == layer,
    ensures
        layer_run(layers, layer, k).contains(i),
    decreases k,
{
    let run = layer_run(layers, layer, k);
    if i == k - 1 {
        assert(run[run.len() - 1] == i);
    } else {
        lemma_layer_run_complete(layers, layer, (k - 1) as nat, i);
        let prev = layer_run(layers, layer, (k - 1) as nat);
        let j = choose|j: int| 0 <= j < prev.len() && prev[j] == i;
        assert(run[j] == i);
    }
}

/// The runs of the two layers together hold every index below `k` once.
pub proof fn lemma_runs_partition(layers: Seq<Layer>, k: nat)
    requires
        k <= layers.len(),
    ensures
        layer_run(layers, Layer::Shadow, k).len() + layer_run(layers, Layer::Primary, k).len() == k,
    decreases k,
{
    if k > 0 {
        lemma_runs_partition(layers, (k - 1) as nat);
    }
}

/// Whether quad `x` may be drawn before quad `y`: a shadow before a
/// primary quad, or two quads of one layer in their original order.
pub open spec fn drawn_before(layers: Seq<Layer>, x: int, y: int) -> bool {
    ||| layers[x] == Layer::Shadow && layers[y] == Layer::Primary
    ||| layers[x] == layers[y] && x < y
}

/// The drawing order is a stable sort of the quads by layer: it lists
/// every quad exactly once, all shadow quads before all primary quads, and
/// quads on the same layer in their original order.
pub proof fn lemma_draw_order_is_stable_sort(layers: Seq<Layer>)
    ensures
        draw_order(layers).len() == layers.len(),
        forall|i: int| 0 <= i < layers.len() ==> #[trigger] draw_order(layers).contains(i),
        forall|j: int| 0 <= j < draw_order(layers).len() ==> 0 <= #[trigger] draw_order(layers)[j] < layers.len(),
        forall|a: int, b: int| 0 <= a < b < draw_order(layers).len() ==>
            #[trigger] drawn_before(layers, draw_order(layers)[a], draw_order(layers)[b]),
{
    let n = layers.len();
    let s = layer_run(layers, Layer::Shadow, n);
    let p = layer_run(layers, Layer::Primary, n);
    lemma_layer_run_len(layers, Layer::Shadow, n);
    lemma_layer_run_len(layers, Layer::Primary, n);
    lemma_runs_partition(layers, n);
    let d = draw_order(layers);
    assert forall|i: int| 0 <= i < n implies #[trigger] d.contains(i) by {
        if layers[i] == Layer::Shadow {
            lemma_layer_run_complete(layers, Layer::Shadow, n, i);
            let j = choose|j: int| 0 <= j < s.len() && s[j] == i;
            assert(d[j] == i);
        } else {
            lemma_layer_run_complete(layers, Layer::Primary, n, i);
            let j = choose|j: int| 0 <= j < p.len() && p[j] == i;
            assert(d[s.len() + j] == i);
        }
    }
    assert forall|j: int| 0 <= j < d.len() implies 0 <= #[trigger] d[j] < n by {
        if j < s.len() {
            assert(d[j] == s[j]);
        } else {
            assert(d[j] == p[j - s.len()]);
        }
    }
    assert forall|a: int, b: int| 0 <= a < b < d.len() implies #[trigger] drawn_before(layers, d[a], d[b]) by {
        if b < s.len() {
            assert(d[a] == s[a] && d[b] == s[b]);
        } else if a >= s.len() {
            assert(d[a] == p[a - s.len()] && d[b] == p[b - s.len()]);
        } else {
            assert(d[a] == s[a] && d[b] == p[b - s.len()]);
        }
    }
}

impl IndicesState {
    /// The layers pushed so far, while the text is being laid out.
    pub fn unsorted(&mut self) -> (r: &mut Vec<Layer>)
        requires
            *old(self) is Unsorted,
        ensures
            *r == (*old(self))->Unsorted_0,
            *final(self) == IndicesState::Unsorted(*final(r)),
    {
        match self {
            IndicesState::Unsorted(vec) => vec,
            IndicesState::Final(_) => vstd::pervasive::unreached(),
        }
    }

    /// Turn the layers into triangle indices, once: quads are sorted by
    /// layer, keeping their order within a layer, and each quad `q` becomes
    /// the two triangles `4q, 4q+1, 4q+2` and `4q+1, 4q+3, 4q+2`.
    pub fn make_final(&mut self) -> (r: &mut Vec<u16>)
        requires
            *old(self) is Unsorted ==> (*old(self))->Unsorted_0@.len() <= 16384,
        ensures
            *old(self) is Final ==> *r == (*old(self))->Final_0,
            *old(self) is Unsorted ==> u16_view(r@) == quad_indices(draw_order((*old(self))->Unsorted_0@)),
            *final(self) == IndicesState::Final(*final(r)),
    {
        if let IndicesState::Unsorted(layers) = self {
            let indices = quad_index_buffer(layers);
            *self = IndicesState::Final(indices);
        }
        match self {
            IndicesState::Final(vec) => vec,
            IndicesState::Unsorted(_) => vstd::pervasive::unreached(),
        }
    }
}

/// The triangle indices for quads with the given layers.
fn quad_index_buffer(layers: &Vec<Layer>) -> (r: Vec<u16>)
    requires
        layers@.len() <= 16384,
    ensures
        u16_view(r@) == quad_indices(draw_order(layers@)),
{
    let mut order: Vec<u16> = Vec::new();
    push_layer_run(layers, Layer::Shadow, &mut order);
    proof {
        lemma_layer_run_len(layers@, Layer::Shadow, layers@.len());
        lemma_runs_partition(layers@, layers@.len());
    }
    push_layer_run(layers, Layer::Primary, &mut order);
    assert(u16_view(order@) =~= draw_order(layers@));
    let ghost d = draw_order(layers@);
    proof {
        lemma_draw_order_is_stable_sort(layers@);
    }
    let mut out: Vec<u16> = Vec::new();
    let mut j: usize = 0;
    let n = order.len();
    while j < n
        invariant
            n == order@.len(),
            n == layers@.len(),
            n <= 16384,
            j <= n,
            d == u16_view(order@),
            forall|k: int| 0 <= k < n ==> 0 <= #[trigger] d[k] < n,
            u16_view(out@) == quad_indices(d.take(j as int)),
        decreases n - j,
    {
        let q = order[j];
        assert(d[j as int] == q as int);
        assert(q < 16384);
        let bl: u16 = q * 4;
        let br = bl + 1;
        let tl = bl + 2;
        let tr = bl + 3;
        let ghost before = out@;
        out.push(bl);
        out.push(br);
        out.push(tl);
        out.push(br);
        out.push(tr);
        out.push(tl);
        proof {
            let next = quad_indices(d.take(j + 1));
            let prev = quad_indices(d.take(j as int));
            let q4 = 4 * (q as int);
            assert(u16_view(out@) =~= u16_view(before) + seq![q4, q4 + 1, q4 + 2, q4 + 1, q4 + 3, q4 + 2]);
            assert(d.take(j + 1) =~= d.take(j as int).push(d[j as int]));
            assert(prev.len() == 6 * j);
            assert forall|i: int| 0 <= i < next.len() implies #[trigger] next[i] == u16_view(out@)[i] by {
                if i < prev.len() {
                    assert(i / 6 < j) by (nonlinear_arith)
                        requires 0 <= i < 6 * j;
                    assert(d.take(j + 1)[i / 6] == d.take(j as int)[i / 6]);
                    assert(next[i] == prev[i]);
                } else {
                    let t = i - 6 * j;
                    assert(0 <= t < 6);
                    assert(i / 6 == j && i % 6 == t) by (nonlinear_arith)
                        requires i == 6 * j + t, 0 <= t < 6;
                    assert(d.take(j + 1)[j as int] == q as int);
                }
            }
            assert(next =~= u16_view(out@));
        }
        j = j + 1;
    }
    assert(d.take(n as int) =~= d);
    out
}

} // verus!
