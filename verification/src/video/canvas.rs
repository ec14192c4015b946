//! FFmpeg filter graph of the canvas overlay: the background layer, the
//! elements placed on it, and the free-tier watermark, joined with `;`.
//! The frame is 1080 by 1920 pixels.
use crate::security::{path_exists, string_views};
use crate::text::{chars_of, owned, push_all, split_char, split_at_char, char_views};
use crate::video::auto_composer::BackgroundLayer;
use vstd::prelude::*;

verus! {

/// The step that lays the background under the clip.
pub open spec fn overlay_step() -> Seq<char> {
    "[0:v][bg]overlay=shortest=1"@
}

/// The free-tier watermark, bottom right and half transparent.
pub open spec fn watermark_step() -> Seq<char> {
    "drawtext=text='LoLShorts Free Tier':fontsize=36:fontcolor=white@0.5:x=w-tw-20:y=h-th-20:shadowx=2:shadowy=2"@
}

/// A path made safe for a filter argument: each `\` doubled, each `:` escaped.
pub open spec fn escape_filter_path(s: Seq<char>) -> Seq<char>
    decreases s.len(),
{
    if s.len() == 0 {
        Seq::empty()
    } else {
        let rest = escape_filter_path(s.drop_last());
        let c = s.last();
        if c == '\\' {
            rest + seq!['\\', '\\']
        } else if c == ':' {
            rest + seq!['\\', ':']
        } else {
            rest.push(c)
        }
    }
}

/// The filter steps of a background layer; `image_exists` tells whether the
/// image of an image background is on disk. A gradient is two colours
/// separated by `:`; any other gradient value falls back to black. A missing
/// image gives no step.
pub open spec fn background_steps(bg: BackgroundLayer, image_exists: bool) -> Seq<Seq<char>> {
    match bg {
        BackgroundLayer::Color { value } => seq![
            "color=c="@ + value@ + ":s=1080x1920:d=1[bg]"@,
            overlay_step(),
        ],
        BackgroundLayer::Gradient { value } => {
            let colors = split_char(value@, ':');
            if colors.len() == 2 {
                seq![
                    "color=c="@ + colors[0]
                        + ":s=1080x1920:d=1,geq=r='r(X,Y)':g='g(X,Y)':b='b(X,Y)',fade=type=in:duration=0:color="@
                        + colors[1] + "[bg]"@,
                    overlay_step(),
                ]
            } else {
                seq!["color=c=black:s=1080x1920:d=1[bg]"@, overlay_step()]
            }
        },
        BackgroundLayer::Image { path } => if image_exists {
            seq![
                "movie="@ + escape_filter_path(path@)
                    + "[bg_img];[bg_img]scale=1080:1920:force_original_aspect_ratio=increase,crop=1080:1920,boxblur=20[bg]"@,
                overlay_step(),
            ]
        } else {
            Seq::empty()
        },
    }
}

/// The steps after the watermark rule: for the free tier the watermark is
/// chained to the last step with `,`, or stands alone when there is none.
pub open spec fn watermarked(steps: Seq<Seq<char>>, is_pro: bool) -> Seq<Seq<char>> {
    if is_pro {
        steps
    } else if steps.len() > 0 {
        steps.update(steps.len() - 1, steps.last() + ","@ + watermark_step())
    } else {
        seq![watermark_step()]
    }
}

/// The steps joined with `sep` between neighbours.
pub open spec fn joined_with(steps: Seq<Seq<char>>, sep: char) -> Seq<char>
    decreases steps.len(),
{
    if steps.len() == 0 {
        Seq::empty()
    } else if steps.len() == 1 {
        steps[0]
    } else {
        joined_with(steps.drop_last(), sep).push(sep) + steps.last()
    }
}

/// The whole filter graph, or `None` when there is no step to apply.
pub open spec fn filter_graph(
    bg: BackgroundLayer,
    image_exists: bool,
    element_steps: Seq<Seq<char>>,
    is_pro: bool,
) -> Option<Seq<char>> {
    let steps = watermarked(background_steps(bg, image_exists) + element_steps, is_pro);
    if steps.len() == 0 {
        None
    } else {
        Some(joined_with(steps, ';'))
    }
}

/// `s` ends with `t`.
pub open spec fn ends_with(s: Seq<char>, t: Seq<char>) -> bool {
    s.len() >= t.len() && s.subrange(s.len() - t.len(), s.len() as int) == t
}

proof fn lemma_joined_ends_with_last(steps: Seq<Seq<char>>, sep: char)
    requires
        steps.len() > 0,
    ensures
        ends_with(joined_with(steps, sep), steps.last()),
{
    let j = joined_with(steps, sep);
    if steps.len() == 1 {
        assert(j.subrange(0, j.len() as int) =~= j);
    } else {
        let head = joined_with(steps.drop_last(), sep).push(sep);
        assert(j == head + steps.last());
        assert(j.subrange(head.len() as int, j.len() as int) =~= steps.last());
    }
}

proof fn lemma_ends_with_trans(a: Seq<char>, b: Seq<char>, c: Seq<char>)
    requires
        ends_with(a, b),
        ends_with(b, c),
    ensures
        ends_with(a, c),
{
    assert(a.subrange(a.len() - c.len(), a.len() as int) =~= b.subrange(
        b.len() - c.len(),
        b.len() as int,
    ));
}

/// On the free tier there is always a filter graph, and it ends with the
/// watermark, whatever the background and the elements are.
pub proof fn law_free_tier_watermarked(
    bg: BackgroundLayer,
    image_exists: bool,
    element_steps: Seq<Seq<char>>,
)
    ensures
        filter_graph(bg, image_exists, element_steps, false) is Some,
        ends_with(filter_graph(bg, image_exists, element_steps, false)->0, watermark_step()),
{
    let s = background_steps(bg, image_exists) + element_steps;
    let steps = watermarked(s, false);
    lemma_joined_ends_with_last(steps, ';');
    let last = steps.last();
    if s.len() > 0 {
        let pre = s.last() + ","@;
        assert(last == pre + watermark_step());
        assert(last.subrange(pre.len() as int, last.len() as int) =~= watermark_step());
    } else {
        assert(last.subrange(0, last.len() as int) =~= last);
    }
    lemma_ends_with_trans(joined_with(steps, ';'), last, watermark_step());
}

/// Escapes a path for use inside a filter argument.
pub fn escaped_filter_path(path: &str) -> (r: String)
    ensures
        r@ == escape_filter_path(path@),
{
    let cs = chars_of(path);
    let mut r = String::new();
    let mut i: usize = 0;
    while i < cs.len()
        invariant
            cs@ == path@,
            i <= cs@.len(),
            r@ == escape_filter_path(cs@.subrange(0, i as int)),
        decreases cs@.len() - i,
    {
        let c = cs[i];
        assert(cs@.subrange(0, i as int + 1).drop_last() =~= cs@.subrange(0, i as int));
        if c == '\\' {
            r.push('\\');
            r.push('\\');
        } else if c == ':' {
            r.push('\\');
            r.push(':');
        } else {
            r.push(c);
        }
        i += 1;
        assert(r@ =~= escape_filter_path(cs@.subrange(0, i as int)));
    }
    assert(cs@.subrange(0, cs@.len() as int) =~= cs@);
    r
}

fn overlay() -> (r: String)
    ensures
        r@ == overlay_step(),
{
    owned("[0:v][bg]overlay=shortest=1")
}

/// The free-tier watermark step on its own, as a video filter.
pub fn watermark_filter() -> (r: String)
    ensures
        r@ == watermark_step(),
{
    owned(
        "drawtext=text='LoLShorts Free Tier':fontsize=36:fontcolor=white@0.5:x=w-tw-20:y=h-th-20:shadowx=2:shadowy=2",
    )
}

/// The filter steps of a background layer, given whether its image exists.
pub fn background_filters(bg: &BackgroundLayer, image_exists: bool) -> (r: Vec<String>)
    ensures
        string_views(r@) == background_steps(*bg, image_exists),
{
    let mut r: Vec<String> = Vec::new();
    match bg {
        BackgroundLayer::Color { value } => {
            let mut s = owned("color=c=");
            push_all(&mut s, value.as_str());
            push_all(&mut s, ":s=1080x1920:d=1[bg]");
            r.push(s);
            r.push(overlay());
        },
        BackgroundLayer::Gradient { value } => {
            let cs = chars_of(value.as_str());
            let colors = split_at_char(cs.as_slice(), ':');
            proof {
                assert(char_views(colors@).len() == colors@.len());
            }
            if colors.len() == 2 {
                assert(colors[0]@ == char_views(colors@)[0]);
                assert(colors[1]@ == char_views(colors@)[1]);
                let mut s = owned("color=c=");
                let first = crate::text::string_from_chars(colors[0].as_slice());
                push_all(&mut s, first.as_str());
                push_all(
                    &mut s,
                    ":s=1080x1920:d=1,geq=r='r(X,Y)':g='g(X,Y)':b='b(X,Y)',fade=type=in:duration=0:color=",
                );
                let second = crate::text::string_from_chars(colors[1].as_slice());
                push_all(&mut s, second.as_str());
                push_all(&mut s, "[bg]");
                r.push(s);
            } else {
                r.push(owned("color=c=black:s=1080x1920:d=1[bg]"));
            }
            r.push(overlay());
        },
        BackgroundLayer::Image { path } => {
            if image_exists {
                let mut s = owned("movie=");
                let escaped = escaped_filter_path(path.as_str());
                push_all(&mut s, escaped.as_str());
                push_all(
                    &mut s,
                    "[bg_img];[bg_img]scale=1080:1920:force_original_aspect_ratio=increase,crop=1080:1920,boxblur=20[bg]",
                );
                r.push(s);
                r.push(overlay());
            }
        },
    }
    assert(string_views(r@) =~= background_steps(*bg, image_exists));
    r
}

/// The filter steps of a background layer; an image background is looked up
/// on disk, so either answer may have been seen.
pub fn canvas_background(bg: &BackgroundLayer) -> (r: Vec<String>)
    ensures
        string_views(r@) == background_steps(*bg, true) || string_views(r@) == background_steps(
            *bg,
            false,
        ),
{
    let exists = match bg {
        BackgroundLayer::Image { path } => path_exists(path.as_str()),
        _ => false,
    };
    background_filters(bg, exists)
}

/// Applies the watermark rule to the steps.
pub fn add_watermark(steps: &mut Vec<String>, is_pro: bool)
    ensures
        string_views(final(steps)@) == watermarked(string_views(old(steps)@), is_pro),
{
    if is_pro {
        return;
    }
    match steps.pop() {
        Some(mut last) => {
            push_all(&mut last, ",");
            let w = watermark_filter();
            push_all(&mut last, w.as_str());
            steps.push(last);
            assert(string_views(steps@) =~= watermarked(string_views(old(steps)@), is_pro));
        },
        None => {
            steps.push(watermark_filter());
            assert(string_views(steps@) =~= watermarked(string_views(old(steps)@), is_pro));
        },
    }
}

/// Joins the steps with `sep` between neighbours.
pub fn join_steps(steps: &Vec<String>, sep: char) -> (r: String)
    ensures
        r@ == joined_with(string_views(steps@), sep),
{
    let mut r = String::new();
    let mut i: usize = 0;
    while i < steps.len()
        invariant
            i <= steps@.len(),
            r@ == joined_with(string_views(steps@.subrange(0, i as int)), sep),
        decreases steps@.len() - i,
    {
        let ghost before = string_views(steps@.subrange(0, i as int));
        if i > 0 {
            r.push(sep);
        }
        push_all(&mut r, steps[i].as_str());
        i += 1;
        proof {
            let now = string_views(steps@.subrange(0, i as int));
            assert(now.drop_last() =~= before);
            assert(now.last() == steps@[i - 1]@);
            if i == 1 {
                assert(r@ =~= now[0]);
            } else {
                assert(r@ =~= joined_with(now, sep));
            }
        }
    }
    assert(steps@.subrange(0, steps@.len() as int) =~= steps@);
    r
}

/// The filter graph of a canvas: the background steps (given whether its
/// image exists), the element steps, then the watermark rule; `None` when no
/// step is left, so the clip is kept as it is.
pub fn canvas_filter_graph(
    bg: &BackgroundLayer,
    image_exists: bool,
    element_steps: Vec<String>,
    is_pro: bool,
) -> (r: Option<String>)
    ensures
        match r {
            Some(g) => filter_graph(*bg, image_exists, string_views(element_steps@), is_pro) == Some(
                g@,
            ),
            None => filter_graph(*bg, image_exists, string_views(element_steps@), is_pro)
                is None,
        },
{
    let mut steps = background_filters(bg, image_exists);
    let ghost first = steps@;
    let mut i: usize = 0;
    while i < element_steps.len()
        invariant
            i <= element_steps@.len(),
            steps@ == first + element_steps@.subrange(0, i as int),
        decreases element_steps@.len() - i,
    {
        steps.push(element_steps[i].clone());
        i += 1;
        assert(steps@ =~= first + element_steps@.subrange(0, i as int));
    }
    assert(element_steps@.subrange(0, element_steps@.len() as int) =~= element_steps@);
    assert(string_views(steps@) =~= string_views(first) + string_views(element_steps@));
    add_watermark(&mut steps, is_pro);
    if steps.len() == 0 {
        None
    } else {
        Some(join_steps(&steps, ';'))
    }
}

} // verus!
