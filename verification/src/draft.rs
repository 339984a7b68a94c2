//! Drafts with images in them: the chips that stand for images, and the blocks
//! that a draft is sent as.

use crate::bus::{ImagePart, PromptBlock};
use crate::text;
use vstd::prelude::*;

verus! {

/// An image that rides in a draft. `token` is the chip that stands for it in
/// the text, `data` its bytes in base64; the painter finds its pixels by
/// `image`.
#[derive(Debug, PartialEq, Eq)]
pub struct Attachment<S = String> {
    pub token: S,
    pub name: S,
    pub path: S,
    pub media_type: S,
    pub data: S,
    pub image: u64,
}

pub type AttachmentV = Attachment<Seq<char>>;

impl View for Attachment {
    type V = AttachmentV;

    open spec fn view(&self) -> AttachmentV {
        Attachment {
            token: self.token@,
            name: self.name@,
            path: self.path@,
            media_type: self.media_type@,
            data: self.data@,
            image: self.image,
        }
    }
}

impl Clone for Attachment {
    fn clone(&self) -> (r: Self)
        ensures
            r == *self,
    {
        Attachment {
            token: self.token.clone(),
            name: self.name.clone(),
            path: self.path.clone(),
            media_type: self.media_type.clone(),
            data: self.data.clone(),
            image: self.image,
        }
    }
}

pub open spec fn attachments_view(v: Seq<Attachment>) -> Seq<AttachmentV> {
    v.map_values(|a: Attachment| a@)
}

/// A piece of a draft: text, or an image in its place.
#[derive(Debug, PartialEq, Eq)]
pub enum StagedBlock<S = String> {
    Text(S),
    Image(Attachment<S>),
}

pub type BlockV = StagedBlock<Seq<char>>;

impl View for StagedBlock {
    type V = BlockV;

    open spec fn view(&self) -> BlockV {
        match *self {
            StagedBlock::Text(t) => StagedBlock::Text(t@),
            StagedBlock::Image(a) => StagedBlock::Image(a@),
        }
    }
}

impl Clone for StagedBlock {
    fn clone(&self) -> (r: Self)
        ensures
            r == *self,
    {
        match self {
            StagedBlock::Text(t) => StagedBlock::Text(t.clone()),
            StagedBlock::Image(a) => StagedBlock::Image(a.clone()),
        }
    }
}

pub open spec fn blocks_view(v: Seq<StagedBlock>) -> Seq<BlockV> {
    v.map_values(|b: StagedBlock| b@)
}

pub fn copy_blocks(v: &Vec<StagedBlock>) -> (r: Vec<StagedBlock>)
    ensures
        blocks_view(r@) == blocks_view(v@),
{
    let mut r: Vec<StagedBlock> = Vec::new();
    let mut i: usize = 0;
    while i < v.len()
        invariant
            i <= v@.len(),
            r@ =~= v@.take(i as int),
        decreases v@.len() - i,
    {
        r.push(v[i].clone());
        i = i + 1;
    }
    assert(v@.take(i as int) =~= v@);
    r
}

/// A chip in a draft: where it begins, where it ends, and which attachment it
/// is.
pub type Span = (usize, usize, usize);

pub open spec fn span_before(a: Span, b: Span) -> bool {
    a.0 < b.0 || (a.0 == b.0 && (a.1 < b.1 || (a.1 == b.1 && a.2 < b.2)))
}

/// A sorted list with one more span in its place.
pub open spec fn with_span(spans: Seq<Span>, x: Span) -> Seq<Span>
    decreases spans.len(),
{
    if spans.len() == 0 || !span_before(x, spans.last()) {
        spans.push(x)
    } else {
        with_span(spans.drop_last(), x).push(spans.last())
    }
}

/// The chips of a draft by position: for each attachment the first place where
/// its token stands.
pub open spec fn spans_of(buf: Seq<char>, atts: Seq<AttachmentV>) -> Seq<Span>
    decreases atts.len(),
{
    if atts.len() == 0 {
        Seq::empty()
    } else {
        let rest = spans_of(buf, atts.drop_last());
        let token = atts.last().token;
        match text::occurrence(buf, token) {
            Some(i) => with_span(
                rest,
                (i as usize, (i + token.len()) as usize, (atts.len() - 1) as usize),
            ),
            None => rest,
        }
    }
}

fn insert_span(spans: &mut Vec<Span>, x: Span)
    ensures
        final(spans)@ == with_span(old(spans)@, x),
    decreases old(spans)@.len(),
{
    let n: usize = spans.len();
    if n == 0 {
        spans.push(x);
        return;
    }
    let last = spans[n - 1];
    let smaller = x.0 < last.0 || (x.0 == last.0 && (x.1 < last.1 || (x.1 == last.1 && x.2
        < last.2)));
    if !smaller {
        spans.push(x);
        return;
    }
    spans.truncate(n - 1);
    assert(spans@ =~= old(spans)@.drop_last());
    insert_span(spans, x);
    spans.push(last);
}

pub open spec fn sorted_spans(spans: Seq<Span>) -> bool {
    forall|i: int, j: int| 0 <= i < j < spans.len() ==> !span_before(#[trigger] spans[j], #[trigger] spans[i])
}

proof fn lemma_with_span_sorted(spans: Seq<Span>, x: Span)
    requires
        sorted_spans(spans),
    ensures
        sorted_spans(with_span(spans, x)),
        with_span(spans, x).to_multiset() == spans.to_multiset().insert(x),
        with_span(spans, x).len() == spans.len() + 1,
        forall|i: int|
            0 <= i < with_span(spans, x).len() ==> #[trigger] with_span(spans, x)[i] == x
                || spans.contains(with_span(spans, x)[i]),
    decreases spans.len(),
{
    broadcast use vstd::seq_lib::group_to_multiset_ensures;

    if spans.len() == 0 || !span_before(x, spans.last()) {
        let w = spans.push(x);
        assert forall|i: int, j: int| 0 <= i < j < w.len() implies !span_before(
            #[trigger] w[j],
            #[trigger] w[i],
        ) by {
            if j == spans.len() && i < spans.len() - 1 {
                assert(!span_before(spans[spans.len() - 1], spans[i]));
            }
        }
        assert forall|i: int| 0 <= i < w.len() implies #[trigger] w[i] == x || spans.contains(
            w[i],
        ) by {
            if i < spans.len() {
                assert(spans[i] == w[i]);
            }
        }
    } else {
        let init = spans.drop_last();
        assert(sorted_spans(init));
        lemma_with_span_sorted(init, x);
        let mid = with_span(init, x);
        let w = mid.push(spans.last());
        assert(spans =~= init.push(spans.last()));
        assert forall|i: int, j: int| 0 <= i < j < w.len() implies !span_before(
            #[trigger] w[j],
            #[trigger] w[i],
        ) by {
            if j == mid.len() {
                assert(mid[i] == x || init.contains(mid[i]));
                if mid[i] != x {
                    let k = choose|k: int| 0 <= k < init.len() && init[k] == mid[i];
                    assert(spans[k] == mid[i]);
                    assert(!span_before(spans[spans.len() - 1], spans[k]));
                }
            } else {
                assert(w[i] == mid[i] && w[j] == mid[j]);
            }
        }
        assert forall|i: int| 0 <= i < w.len() implies #[trigger] w[i] == x || spans.contains(
            w[i],
        ) by {
            if i < mid.len() {
                assert(w[i] == mid[i]);
                if mid[i] != x {
                    let k = choose|k: int| 0 <= k < init.len() && init[k] == mid[i];
                    assert(spans[k] == mid[i]);
                }
            } else {
                assert(spans[spans.len() - 1] == w[i]);
            }
        }
        assert(w.to_multiset() =~= spans.to_multiset().insert(x));
    }
}

/// The chips of a draft come in the order of the text.
pub proof fn law_spans_are_sorted(buf: Seq<char>, atts: Seq<AttachmentV>)
    ensures
        sorted_spans(spans_of(buf, atts)),
    decreases atts.len(),
{
    if atts.len() > 0 {
        law_spans_are_sorted(buf, atts.drop_last());
        let token = atts.last().token;
        if let Some(i) = text::occurrence(buf, token) {
            lemma_with_span_sorted(
                spans_of(buf, atts.drop_last()),
                (i as usize, (i + token.len()) as usize, (atts.len() - 1) as usize),
            );
        }
    }
}

proof fn lemma_spans_in_range(buf: Seq<char>, atts: Seq<AttachmentV>)
    requires
        buf.len() <= usize::MAX,
        atts.len() <= usize::MAX,
    ensures
        forall|i: int|
            0 <= i < spans_of(buf, atts).len() ==> (#[trigger] spans_of(buf, atts)[i]).0 <= spans_of(
                buf,
                atts,
            )[i].1 <= buf.len() && spans_of(buf, atts)[i].2 < atts.len(),
    decreases atts.len(),
{
    if atts.len() > 0 {
        lemma_spans_in_range(buf, atts.drop_last());
        law_spans_are_sorted(buf, atts.drop_last());
        let rest = spans_of(buf, atts.drop_last());
        let token = atts.last().token;
        if let Some(i) = text::occurrence(buf, token) {
            lemma_occurrence_fits(buf, token, 0);
            let x = (i as usize, (i + token.len()) as usize, (atts.len() - 1) as usize);
            lemma_with_span_sorted(rest, x);
            let w = with_span(rest, x);
            assert forall|k: int| 0 <= k < w.len() implies (#[trigger] w[k]).0 <= w[k].1
                <= buf.len() && w[k].2 < atts.len() by {
                if w[k] != x {
                    let m = choose|m: int| 0 <= m < rest.len() && rest[m] == w[k];
                    assert(rest[m] == w[k]);
                }
            }
        }
    }
}

proof fn lemma_occurrence_fits(s: Seq<char>, p: Seq<char>, i: int)
    requires
        0 <= i,
    ensures
        text::occurrence_from(s, p, i) matches Some(k) ==> i <= k && k + p.len() <= s.len(),
    decreases s.len() + 1 - i,
{
    if i + p.len() <= s.len() && !text::occurs_at(s, p, i) {
        lemma_occurrence_fits(s, p, i + 1);
    }
}

/// The chips of a draft: `(start, end, attachment)`, in the order of the text.
pub fn token_spans_in(buf: &str, attachments: &Vec<Attachment>) -> (r: Vec<Span>)
    ensures
        r@ == spans_of(buf@, attachments_view(attachments@)),
        forall|i: int|
            0 <= i < r@.len() ==> (#[trigger] r@[i]).0 <= r@[i].1 <= buf@.len() && r@[i].2
                < attachments@.len(),
{
    let v = text::chars_of(buf);
    let ghost all = attachments_view(attachments@);
    let mut spans: Vec<Span> = Vec::new();
    let mut i: usize = 0;
    assert(all.take(0) =~= Seq::empty());
    while i < attachments.len()
        invariant
            i <= attachments@.len(),
            all == attachments_view(attachments@),
            v@ == buf@,
            spans@ == spans_of(buf@, all.take(i as int)),
        decreases attachments@.len() - i,
    {
        assert(all.take(i as int + 1).drop_last() =~= all.take(i as int));
        assert(all.take(i as int + 1).last() == attachments@[i as int]@);
        let token = text::chars_of(attachments[i].token.as_str());
        if let Some(at) = text::find(&v, &token) {
            let n: usize = v.len();
            insert_span(&mut spans, (at, at + token.len(), i));
        }
        i = i + 1;
    }
    assert(all.take(i as int) =~= all);
    proof {
        assert(v.len() == buf@.len());
        assert(attachments.len() == all.len());
        lemma_spans_in_range(buf@, all);
    }
    spans
}

pub open spec fn blank(b: BlockV) -> bool {
    b matches StagedBlock::Text(t) && text::trimmed(t).len() == 0
}

pub open spec fn without_blank_front(b: Seq<BlockV>) -> Seq<BlockV>
    decreases b.len(),
{
    if b.len() > 0 && blank(b[0]) {
        without_blank_front(b.skip(1))
    } else {
        b
    }
}

pub open spec fn without_blank_back(b: Seq<BlockV>) -> Seq<BlockV>
    decreases b.len(),
{
    if b.len() > 0 && blank(b.last()) {
        without_blank_back(b.drop_last())
    } else {
        b
    }
}

pub open spec fn block_trimmed(b: BlockV) -> BlockV {
    match b {
        StagedBlock::Text(t) => StagedBlock::Text(text::trimmed(t)),
        _ => b,
    }
}

pub open spec fn ends_trimmed(b: Seq<BlockV>) -> Seq<BlockV> {
    if b.len() == 0 {
        b
    } else {
        let c = b.update(0, block_trimmed(b[0]));
        c.update(c.len() - 1, block_trimmed(c.last()))
    }
}

pub open spec fn empty_text(b: BlockV) -> bool {
    b matches StagedBlock::Text(t) && t.len() == 0
}

pub open spec fn without_empty(b: Seq<BlockV>) -> Seq<BlockV>
    decreases b.len(),
{
    if b.len() == 0 {
        b
    } else if empty_text(b.last()) {
        without_empty(b.drop_last())
    } else {
        without_empty(b.drop_last()).push(b.last())
    }
}

/// Blocks without blank text at either end, the ends themselves trimmed.
pub open spec fn trimmed_blocks(b: Seq<BlockV>) -> Seq<BlockV> {
    without_empty(ends_trimmed(without_blank_back(without_blank_front(b))))
}

fn is_blank(b: &StagedBlock) -> (r: bool)
    ensures
        r == blank(b@),
{
    match b {
        StagedBlock::Text(t) => {
            let t = text::trim(t.as_str());
            t.as_str().is_empty()
        },
        StagedBlock::Image(_) => false,
    }
}

fn trim_block(b: &StagedBlock) -> (r: StagedBlock)
    ensures
        r@ == block_trimmed(b@),
{
    match b {
        StagedBlock::Text(t) => StagedBlock::Text(text::trim(t.as_str())),
        StagedBlock::Image(a) => StagedBlock::Image(a.clone()),
    }
}

pub fn trim_staged_blocks(blocks: &mut Vec<StagedBlock>)
    ensures
        blocks_view(final(blocks)@) == trimmed_blocks(blocks_view(old(blocks)@)),
{
    let ghost start = blocks_view(blocks@);
    while blocks.len() > 0 && is_blank(&blocks[0])
        invariant
            without_blank_front(blocks_view(blocks@)) == without_blank_front(start),
        decreases blocks@.len(),
    {
        let ghost before = blocks@;
        assert(blocks_view(before)[0] == before[0]@);
        blocks.remove(0);
        assert(blocks_view(blocks@) =~= blocks_view(before).skip(1));
    }
    assert(blocks@.len() > 0 ==> blocks_view(blocks@)[0] == blocks@[0]@);
    let ghost mid = blocks_view(blocks@);
    while blocks.len() > 0 && is_blank(&blocks[blocks.len() - 1])
        invariant
            without_blank_back(blocks_view(blocks@)) == without_blank_back(mid),
        decreases blocks@.len(),
    {
        let ghost before = blocks@;
        assert(blocks_view(before).last() == before.last()@);
        blocks.pop();
        assert(blocks_view(blocks@) =~= blocks_view(before).drop_last());
    }
    assert(blocks@.len() > 0 ==> blocks_view(blocks@).last() == blocks@.last()@);
    let ghost bare = blocks_view(blocks@);
    if blocks.len() > 0 {
        let ghost b0 = blocks@;
        let first = trim_block(&blocks[0]);
        let ghost f = first@;
        blocks[0] = first;
        assert(blocks_view(blocks@) =~= blocks_view(b0).update(0, f));
        let n: usize = blocks.len();
        let ghost b1 = blocks@;
        let last = trim_block(&blocks[n - 1]);
        let ghost l = last@;
        assert(blocks_view(b1).last() == b1.last()@);
        blocks[n - 1] = last;
        assert(blocks_view(blocks@) =~= blocks_view(b1).update(n - 1, l));
    }
    let ghost all = blocks_view(blocks@);
    assert(all == ends_trimmed(bare));
    let mut kept: Vec<StagedBlock> = Vec::new();
    let mut i: usize = 0;
    assert(blocks_view(kept@) =~= without_empty(all.take(0)));
    while i < blocks.len()
        invariant
            i <= blocks@.len(),
            all == blocks_view(blocks@),
            blocks_view(kept@) == without_empty(all.take(i as int)),
        decreases blocks@.len() - i,
    {
        assert(all.take(i as int + 1).drop_last() =~= all.take(i as int));
        assert(all.take(i as int + 1).last() == blocks@[i as int]@);
        let drop = match &blocks[i] {
            StagedBlock::Text(t) => t.as_str().is_empty(),
            StagedBlock::Image(_) => false,
        };
        if !drop {
            let ghost before = kept@;
            kept.push(blocks[i].clone());
            assert(blocks_view(kept@) =~= blocks_view(before).push(blocks@[i as int]@));
        }
        i = i + 1;
    }
    assert(all.take(i as int) =~= all);
    *blocks = kept;
}

/// A draft cut at its first `n` chips: the blocks, and where the rest begins.
pub open spec fn cut(buf: Seq<char>, atts: Seq<AttachmentV>, spans: Seq<Span>) -> (Seq<BlockV>, int)
    decreases spans.len(),
{
    if spans.len() == 0 {
        (Seq::empty(), 0)
    } else {
        let (blocks, at) = cut(buf, atts, spans.drop_last());
        let (start, end, i) = spans.last();
        let before = if start > at {
            blocks.push(StagedBlock::Text(buf.subrange(at, start as int)))
        } else {
            blocks
        };
        (before.push(StagedBlock::Image(atts[i as int])), end as int)
    }
}

/// A draft as blocks: the texts between the chips and the images of the chips,
/// in reading order.
pub open spec fn blocks_of(buf: Seq<char>, atts: Seq<AttachmentV>) -> Seq<BlockV> {
    let (blocks, at) = cut(buf, atts, spans_of(buf, atts));
    trimmed_blocks(
        if at < buf.len() {
            blocks.push(StagedBlock::Text(buf.subrange(at, buf.len() as int)))
        } else {
            blocks
        },
    )
}

fn push_block(blocks: &mut Vec<StagedBlock>, b: StagedBlock)
    ensures
        blocks_view(final(blocks)@) == blocks_view(old(blocks)@).push(b@),
{
    blocks.push(b);
    assert(blocks_view(blocks@) =~= blocks_view(old(blocks)@).push(b@));
}

pub fn split_draft_into_staged_blocks(buf: &str, attachments: &Vec<Attachment>) -> (r: Vec<
    StagedBlock,
>)
    ensures
        blocks_view(r@) == blocks_of(buf@, attachments_view(attachments@)),
{
    let spans = token_spans_in(buf, attachments);
    let v = text::chars_of(buf);
    let ghost atts = attachments_view(attachments@);
    let mut blocks: Vec<StagedBlock> = Vec::new();
    let mut at: usize = 0;
    let mut i: usize = 0;
    assert(blocks_view(blocks@) =~= Seq::<BlockV>::empty());
    assert(spans@.take(0) =~= Seq::empty());
    while i < spans.len()
        invariant
            i <= spans@.len(),
            v@ == buf@,
            atts == attachments_view(attachments@),
            at <= buf@.len(),
            forall|k: int|
                0 <= k < spans@.len() ==> (#[trigger] spans@[k]).0 <= spans@[k].1 <= buf@.len()
                    && spans@[k].2 < attachments@.len(),
            (blocks_view(blocks@), at as int) == cut(buf@, atts, spans@.take(i as int)),
        decreases spans@.len() - i,
    {
        assert(spans@.take(i as int + 1).drop_last() =~= spans@.take(i as int));
        let (start, end, idx) = spans[i];
        assert(spans@[i as int].1 <= buf@.len());
        if start > at {
            let t = text::string_of_range(&v, at, start);
            push_block(&mut blocks, StagedBlock::Text(t));
        }
        assert(atts[idx as int] == attachments@[idx as int]@);
        push_block(&mut blocks, StagedBlock::Image(attachments[idx].clone()));
        at = end;
        i = i + 1;
    }
    assert(spans@.take(i as int) =~= spans@);
    if at < v.len() {
        let t = text::string_of_range(&v, at, v.len());
        push_block(&mut blocks, StagedBlock::Text(t));
    }
    trim_staged_blocks(&mut blocks);
    blocks
}

pub open spec fn image_part(a: AttachmentV) -> ImagePart<Seq<char>> {
    ImagePart { data: a.data, media_type: a.media_type, name: a.name, path: a.path }
}

pub fn image_part_from(att: &Attachment) -> (r: ImagePart)
    ensures
        r@ == image_part(att@),
{
    ImagePart {
        data: att.data.clone(),
        media_type: att.media_type.clone(),
        name: att.name.clone(),
        path: att.path.clone(),
    }
}

pub open spec fn prompt_block(b: BlockV) -> PromptBlock<Seq<char>> {
    match b {
        StagedBlock::Text(t) => PromptBlock::Text(t),
        StagedBlock::Image(a) => PromptBlock::Image(image_part(a)),
    }
}

/// The blocks of a prompt, one for each block of the draft and in its order.
pub open spec fn prompt_blocks(b: Seq<BlockV>) -> Seq<PromptBlock<Seq<char>>> {
    b.map_values(|x: BlockV| prompt_block(x))
}

pub fn prompt_blocks_from_staged(staged: &Vec<StagedBlock>) -> (r: Vec<PromptBlock>)
    ensures
        crate::bus::blocks_view(r@) == prompt_blocks(blocks_view(staged@)),
{
    let ghost all = blocks_view(staged@);
    let mut r: Vec<PromptBlock> = Vec::new();
    let mut i: usize = 0;
    while i < staged.len()
        invariant
            i <= staged@.len(),
            all == blocks_view(staged@),
            r@.len() == i,
            forall|k: int| 0 <= k < i ==> (#[trigger] r@[k])@ == prompt_block(all[k]),
        decreases staged@.len() - i,
    {
        assert(all[i as int] == staged@[i as int]@);
        r.push(
            match &staged[i] {
                StagedBlock::Text(t) => PromptBlock::Text(t.clone()),
                StagedBlock::Image(a) => PromptBlock::Image(image_part_from(a)),
            },
        );
        i = i + 1;
    }
    assert(crate::bus::blocks_view(r@) =~= prompt_blocks(all));
    r
}

pub open spec fn is_image(b: BlockV) -> bool {
    b is Image
}

/// How many images are among some blocks.
pub open spec fn image_count(b: Seq<BlockV>) -> nat
    decreases b.len(),
{
    if b.len() == 0 {
        0
    } else {
        image_count(b.drop_last()) + (if is_image(b.last()) {
            1nat
        } else {
            0nat
        })
    }
}

pub fn count_images(b: &Vec<StagedBlock>) -> (r: usize)
    ensures
        r == image_count(blocks_view(b@)),
        r <= b@.len(),
{
    let ghost all = blocks_view(b@);
    let mut n: usize = 0;
    let mut i: usize = 0;
    assert(all.take(0) =~= Seq::empty());
    while i < b.len()
        invariant
            i <= b@.len(),
            n <= i,
            all == blocks_view(b@),
            n == image_count(all.take(i as int)),
        decreases b@.len() - i,
    {
        assert(all.take(i as int + 1).drop_last() =~= all.take(i as int));
        assert(all.take(i as int + 1).last() == b@[i as int]@);
        if matches!(b[i], StagedBlock::Image(_)) {
            n = n + 1;
        }
        i = i + 1;
    }
    assert(all.take(i as int) =~= all);
    n
}

// --- laws ---------------------------------------------------------------------

pub open spec fn images_of(b: Seq<BlockV>) -> Seq<AttachmentV>
    decreases b.len(),
{
    if b.len() == 0 {
        Seq::empty()
    } else {
        match b.last() {
            StagedBlock::Image(a) => images_of(b.drop_last()).push(a),
            _ => images_of(b.drop_last()),
        }
    }
}

proof fn lemma_front_keeps_images(b: Seq<BlockV>)
    ensures
        images_of(without_blank_front(b)) == images_of(b),
    decreases b.len(),
{
    if b.len() > 0 && blank(b[0]) {
        lemma_front_keeps_images(b.skip(1));
        lemma_images_skip(b);
    }
}

proof fn lemma_images_skip(b: Seq<BlockV>)
    requires
        b.len() > 0,
        !is_image(b[0]),
    ensures
        images_of(b.skip(1)) == images_of(b),
    decreases b.len(),
{
    if b.len() == 1 {
        assert(b.skip(1) =~= Seq::empty());
        assert(b.drop_last() =~= Seq::empty());
        assert(images_of(b.drop_last()) =~= Seq::<AttachmentV>::empty());
    } else {
        lemma_images_skip(b.drop_last());
        assert(b.skip(1).drop_last() =~= b.drop_last().skip(1));
    }
}

proof fn lemma_back_keeps_images(b: Seq<BlockV>)
    ensures
        images_of(without_blank_back(b)) == images_of(b),
    decreases b.len(),
{
    if b.len() > 0 && blank(b.last()) {
        lemma_back_keeps_images(b.drop_last());
    }
}

proof fn lemma_update_keeps_images(b: Seq<BlockV>, i: int)
    requires
        0 <= i < b.len(),
    ensures
        images_of(b.update(i, block_trimmed(b[i]))) == images_of(b),
    decreases b.len(),
{
    let c = b.update(i, block_trimmed(b[i]));
    if i == b.len() - 1 {
        assert(c.drop_last() =~= b.drop_last());
    } else {
        lemma_update_keeps_images(b.drop_last(), i);
        assert(c.drop_last() =~= b.drop_last().update(i, block_trimmed(b[i])));
    }
}

proof fn lemma_empty_keeps_images(b: Seq<BlockV>)
    ensures
        images_of(without_empty(b)) == images_of(b),
    decreases b.len(),
{
    if b.len() > 0 {
        lemma_empty_keeps_images(b.drop_last());
        if !empty_text(b.last()) {
            assert(without_empty(b).drop_last() =~= without_empty(b.drop_last()));
        }
    }
}

/// Trimming blocks loses no image and keeps their order.
pub proof fn law_trimming_keeps_images(b: Seq<BlockV>)
    ensures
        images_of(trimmed_blocks(b)) == images_of(b),
{
    let x = without_blank_front(b);
    let y = without_blank_back(x);
    lemma_front_keeps_images(b);
    lemma_back_keeps_images(x);
    if y.len() > 0 {
        lemma_update_keeps_images(y, 0);
        let c = y.update(0, block_trimmed(y[0]));
        lemma_update_keeps_images(c, c.len() - 1);
    }
    lemma_empty_keeps_images(ends_trimmed(y));
}

proof fn lemma_cut_images(buf: Seq<char>, atts: Seq<AttachmentV>, spans: Seq<Span>)
    ensures
        images_of(cut(buf, atts, spans).0) == spans.map_values(|s: Span| atts[s.2 as int]),
    decreases spans.len(),
{
    if spans.len() > 0 {
        let f = |s: Span| atts[s.2 as int];
        lemma_cut_images(buf, atts, spans.drop_last());
        let (blocks, at) = cut(buf, atts, spans.drop_last());
        let (start, end, i) = spans.last();
        let t = StagedBlock::Text(buf.subrange(at, start as int));
        let before = if start > at {
            blocks.push(t)
        } else {
            blocks
        };
        assert(blocks.push(t).drop_last() =~= blocks);
        assert(images_of(before) == images_of(blocks));
        assert(before.push(StagedBlock::Image(atts[i as int])).drop_last() =~= before);
        assert(spans.map_values(f) =~= spans.drop_last().map_values(f).push(atts[i as int]));
    } else {
        assert(spans.map_values(|s: Span| atts[s.2 as int]) =~= Seq::<AttachmentV>::empty());
    }
}

/// A draft is sent with exactly the images whose chips stand in it, in the
/// order of the chips.
pub proof fn law_draft_sends_its_chips(buf: Seq<char>, atts: Seq<AttachmentV>)
    ensures
        images_of(blocks_of(buf, atts)) == spans_of(buf, atts).map_values(
            |s: Span| atts[s.2 as int],
        ),
{
    let spans = spans_of(buf, atts);
    let (blocks, at) = cut(buf, atts, spans);
    lemma_cut_images(buf, atts, spans);
    let t = StagedBlock::Text(buf.subrange(at, buf.len() as int));
    assert(blocks.push(t).drop_last() =~= blocks);
    law_trimming_keeps_images(blocks);
    law_trimming_keeps_images(blocks.push(t));
}

} // verus!
