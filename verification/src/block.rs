use vstd::prelude::*;
use vstd::string::*;

verus! {

/// One fenced region extracted from a message: the language tag and the body.
/// Each field is `None` when the corresponding substring of the region was
/// empty, so callers can tell "no tag supplied" from "tag supplied but empty".
#[derive(Debug, PartialEq, Eq)]
pub struct CodeBlock {
    pub language: Option<String>,
    pub code: Option<String>,
}

/// The mathematical content of a `CodeBlock`: the two fields as character
/// sequences.
pub ghost struct BlockView {
    pub language: Option<Seq<char>>,
    pub code: Option<Seq<char>>,
}

impl View for CodeBlock {
    type V = BlockView;

    open spec fn view(&self) -> BlockView {
        BlockView {
            language: match self.language {
                Some(ref s) => Some(s@),
                None => None,
            },
            code: match self.code {
                Some(ref s) => Some(s@),
                None => None,
            },
        }
    }
}

/// The views of a sequence of blocks.
pub open spec fn blocks_view(bs: Seq<CodeBlock>) -> Seq<BlockView> {
    bs.map_values(|b: CodeBlock| b@)
}

/// A character that may stand in a language tag: anything but whitespace.
pub open spec fn is_tag_char(c: char) -> bool {
    c != ' ' && c != '\t' && c != '\r' && c != '\n'
}

/// An opening or closing delimiter (three backticks) begins at `i`.
pub open spec fn is_fence_at(t: Seq<char>, i: int) -> bool {
    &&& 0 <= i
    &&& i + 3 <= t.len()
    &&& t[i] == '`'
    &&& t[i + 1] == '`'
    &&& t[i + 2] == '`'
}

/// Position `i` is the first character of a line.
pub open spec fn is_line_start(t: Seq<char>, i: int) -> bool {
    i == 0 || t[i - 1] == '\n'
}

/// The first position at or after `j` that does not hold a tag character
/// (or the end of the text).
pub open spec fn tag_end(t: Seq<char>, j: int) -> int
    decreases t.len() - j,
{
    if j < t.len() && is_tag_char(t[j]) {
        tag_end(t, j + 1)
    } else {
        j
    }
}

/// A closing fence (a newline followed by the delimiter) begins at `k`.
pub open spec fn is_close_at(t: Seq<char>, k: int) -> bool {
    &&& 0 <= k
    &&& k + 4 <= t.len()
    &&& t[k] == '\n'
    &&& t[k + 1] == '`'
    &&& t[k + 2] == '`'
    &&& t[k + 3] == '`'
}

/// The least position at or after `k` where a closing fence begins, if any.
pub open spec fn find_close(t: Seq<char>, k: int) -> Option<int>
    decreases t.len() + 4 - k,
{
    if k + 4 > t.len() {
        None
    } else if is_close_at(t, k) {
        Some(k)
    } else {
        find_close(t, k + 1)
    }
}

/// A complete fenced region begins at `i`: an opening delimiter at the start
/// of a line, a run of tag characters ended by a newline, and a closing fence
/// somewhere after that newline.
pub open spec fn region_at(t: Seq<char>, i: int) -> bool {
    &&& is_line_start(t, i)
    &&& is_fence_at(t, i)
    &&& {
        let te = tag_end(t, i + 3);
        &&& te < t.len()
        &&& t[te] == '\n'
        &&& find_close(t, te + 1) is Some
    }
}

/// The position just past the closing fence of the region beginning at `i`.
pub open spec fn region_end(t: Seq<char>, i: int) -> int {
    find_close(t, tag_end(t, i + 3) + 1)->Some_0 + 4
}

/// The block the region beginning at `i` yields. The tag substring is the
/// run of tag characters after the opening delimiter and the body substring
/// is what stands between the two newlines; each field is absent exactly
/// when its substring is empty.
pub open spec fn region_block(t: Seq<char>, i: int) -> BlockView {
    let te = tag_end(t, i + 3);
    let k = find_close(t, te + 1)->Some_0;
    BlockView {
        language: if te == i + 3 {
            None
        } else {
            Some(t.subrange(i + 3, te))
        },
        code: if k == te + 1 {
            None
        } else {
            Some(t.subrange(te + 1, k))
        },
    }
}

proof fn lemma_tag_end_bounds(t: Seq<char>, j: int)
    requires
        j <= t.len(),
    ensures
        j <= tag_end(t, j) <= t.len(),
    decreases t.len() - j,
{
    if j < t.len() && is_tag_char(t[j]) {
        lemma_tag_end_bounds(t, j + 1);
    }
}

proof fn lemma_find_close_bounds(t: Seq<char>, k: int)
    ensures
        match find_close(t, k) {
            Some(c) => k <= c && is_close_at(t, c),
            None => true,
        },
    decreases t.len() + 4 - k,
{
    if k + 4 <= t.len() && !is_close_at(t, k) {
        lemma_find_close_bounds(t, k + 1);
    }
}

/// The ordered sequence of blocks found in `t` at or after position `i`:
/// the leftmost complete region is taken, and scanning resumes just past its
/// closing fence, so regions never overlap and adjacent regions are never
/// merged.
pub open spec fn extract_from(t: Seq<char>, i: int) -> Seq<BlockView>
    decreases t.len() - i,
        via extract_from_decreases
{
    if i >= t.len() {
        seq![]
    } else if region_at(t, i) {
        seq![region_block(t, i)] + extract_from(t, region_end(t, i))
    } else {
        extract_from(t, i + 1)
    }
}

#[via_fn]
proof fn extract_from_decreases(t: Seq<char>, i: int) {
    if i < t.len() && region_at(t, i) {
        lemma_tag_end_bounds(t, i + 3);
        lemma_find_close_bounds(t, tag_end(t, i + 3) + 1);
    }
}

/// The blocks of a whole text.
pub open spec fn spec_extract(t: Seq<char>) -> Seq<BlockView> {
    extract_from(t, 0)
}

/// A text in which no position begins a complete fenced region yields no
/// blocks.
pub proof fn lemma_no_region_no_blocks(t: Seq<char>)
    requires
        forall|p: int| !region_at(t, p),
    ensures
        spec_extract(t) == Seq::<BlockView>::empty(),
{
    lemma_no_region_no_blocks_from(t, 0);
}

proof fn lemma_no_region_no_blocks_from(t: Seq<char>, i: int)
    requires
        forall|p: int| i <= p ==> !region_at(t, p),
    ensures
        extract_from(t, i) == Seq::<BlockView>::empty(),
    decreases t.len() - i,
{
    if i < t.len() {
        lemma_no_region_no_blocks_from(t, i + 1);
    }
}

/// The extractor takes regions left to right: if a complete region begins at
/// `p` and none begins earlier (at or after `i`), the blocks from `i` are
/// that region's block followed by the blocks found after its closing fence.
/// Applied repeatedly, a text with exactly the non-overlapping regions
/// beginning at `p_1 < ... < p_n` yields exactly their `n` blocks in order.
pub proof fn lemma_leftmost_region(t: Seq<char>, i: int, p: int)
    requires
        i <= p,
        region_at(t, p),
        forall|q: int| i <= q < p ==> !region_at(t, q),
    ensures
        extract_from(t, i) == seq![region_block(t, p)] + extract_from(t, region_end(t, p)),
    decreases p - i,
{
    assert(p + 3 <= t.len());
    if i < p {
        lemma_leftmost_region(t, i + 1, p);
    }
}

/// The positions `ps` enumerate every complete region of `t` at or after
/// `from`, left to right: each begins a complete region, no region begins
/// between `from` and the first of them, and after each region's closing
/// fence the remaining positions enumerate the regions of the rest.
pub open spec fn region_positions(t: Seq<char>, from: int, ps: Seq<int>) -> bool
    decreases ps.len(),
{
    if ps.len() == 0 {
        forall|q: int| from <= q ==> !region_at(t, q)
    } else {
        &&& from <= ps[0]
        &&& region_at(t, ps[0])
        &&& (forall|q: int| from <= q < ps[0] ==> !region_at(t, q))
        &&& region_positions(t, region_end(t, ps[0]), ps.drop_first())
    }
}

/// A text with exactly the well-formed, non-overlapping regions beginning at
/// the positions `ps` yields exactly one block per region, in left-to-right
/// order. Whether each block's `language` or `code` is absent is part of
/// `region_block`: absent exactly when that region's tag or body substring
/// is empty.
pub proof fn lemma_blocks_of_regions(t: Seq<char>, from: int, ps: Seq<int>)
    requires
        region_positions(t, from, ps),
    ensures
        extract_from(t, from) == ps.map_values(|p: int| region_block(t, p)),
    decreases ps.len(),
{
    if ps.len() == 0 {
        lemma_no_region_no_blocks_from(t, from);
        assert(ps.map_values(|p: int| region_block(t, p)) =~= Seq::<BlockView>::empty());
    } else {
        lemma_leftmost_region(t, from, ps[0]);
        lemma_blocks_of_regions(t, region_end(t, ps[0]), ps.drop_first());
        assert(ps.map_values(|p: int| region_block(t, p)) =~= seq![region_block(t, ps[0])]
            + ps.drop_first().map_values(|p: int| region_block(t, p)));
    }
}

/// Decides `is_tag_char`.
fn tag_char(c: char) -> (r: bool)
    ensures
        r == is_tag_char(c),
{
    c != ' ' && c != '\t' && c != '\r' && c != '\n'
}

/// Computes `tag_end`.
fn tag_end_exec(text: &str, n: usize, j: usize) -> (r: usize)
    requires
        n == text@.len(),
        j <= n,
    ensures
        r as int == tag_end(text@, j as int),
        j <= r <= n,
{
    let mut cur = j;
    while cur < n && tag_char(text.get_char(cur))
        invariant
            n == text@.len(),
            j <= cur <= n,
            tag_end(text@, j as int) == tag_end(text@, cur as int),
        decreases n - cur,
    {
        assert(tag_end(text@, cur as int) == tag_end(text@, cur + 1 as int));
        cur = cur + 1;
    }
    assert(tag_end(text@, cur as int) == cur as int);
    cur
}

/// Computes `find_close`.
fn find_close_exec(text: &str, n: usize, k: usize) -> (r: Option<usize>)
    requires
        n == text@.len(),
        k <= n,
    ensures
        match r {
            Some(c) => find_close(text@, k as int) == Some(c as int) && k <= c && c + 4 <= n,
            None => find_close(text@, k as int) is None,
        },
{
    let mut cur = k;
    loop
        invariant
            n == text@.len(),
            k <= cur <= n,
            find_close(text@, k as int) == find_close(text@, cur as int),
        decreases n + 4 - cur,
    {
        if n < 4 || cur > n - 4 {
            assert(find_close(text@, cur as int) is None);
            return None;
        }
        let close = text.get_char(cur) == '\n' && text.get_char(cur + 1) == '`'
            && text.get_char(cur + 2) == '`' && text.get_char(cur + 3) == '`';
        assert(close == is_close_at(text@, cur as int));
        if close {
            return Some(cur);
        }
        assert(find_close(text@, cur as int) == find_close(text@, cur + 1 as int));
        cur = cur + 1;
    }
}

/// Scans the text for fenced regions and yields one `CodeBlock` per region,
/// in order of appearance. Pure and deterministic: the blocks are exactly
/// `spec_extract` of the text.
pub fn extract_code_blocks(text: &str) -> (blocks: Vec<CodeBlock>)
    ensures
        blocks_view(blocks@) == spec_extract(text@),
{
    let n = text.unicode_len();
    let mut blocks: Vec<CodeBlock> = Vec::new();
    let mut i: usize = 0;
    while i < n
        invariant
            n == text@.len(),
            i <= n,
            spec_extract(text@) == blocks_view(blocks@) + extract_from(text@, i as int),
        decreases n - i,
    {
        let ghost pre = blocks@;
        let line_start = i == 0 || text.get_char(i - 1) == '\n';
        let fence = n - i >= 3 && text.get_char(i) == '`' && text.get_char(i + 1) == '`'
            && text.get_char(i + 2) == '`';
        assert(line_start == is_line_start(text@, i as int));
        assert(fence == is_fence_at(text@, i as int));
        let mut took_region = false;
        if line_start && fence {
            let te = tag_end_exec(text, n, i + 3);
            if te < n && text.get_char(te) == '\n' {
                if let Some(k) = find_close_exec(text, n, te + 1) {
                    assert(region_at(text@, i as int));
                    let language = if te == i + 3 {
                        None
                    } else {
                        Some(text.substring_char(i + 3, te).to_owned())
                    };
                    let code = if k == te + 1 {
                        None
                    } else {
                        Some(text.substring_char(te + 1, k).to_owned())
                    };
                    let block = CodeBlock { language, code };
                    assert(block@ == region_block(text@, i as int));
                    blocks.push(block);
                    assert(blocks_view(blocks@) =~= blocks_view(pre) + seq![block@]);
                    assert(region_end(text@, i as int) == k + 4);
                    i = k + 4;
                    took_region = true;
                }
            }
        }
        if !took_region {
            assert(!region_at(text@, i as int));
            assert(extract_from(text@, i as int) == extract_from(text@, i + 1 as int));
            i = i + 1;
        }
        assert(spec_extract(text@) =~= blocks_view(blocks@) + extract_from(text@, i as int));
    }
    assert(extract_from(text@, n as int) == Seq::<BlockView>::empty());
    assert(spec_extract(text@) =~= blocks_view(blocks@));
    blocks
}

} // verus!
