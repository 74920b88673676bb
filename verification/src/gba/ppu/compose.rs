use crate::gba::ppu::Pixel;
use vstd::prelude::*;

verus! {

/// Whether background `bg` shows a pixel at this dot: its window lets it
/// through and its line has a pixel there.
pub open spec fn spec_bg_shown(bg_pixels: Seq<Option<Pixel>>, win_bg: Seq<bool>, bg: int) -> bool {
    win_bg[bg] && bg_pixels[bg] is Some
}

/// The pixels that the backgrounds of `order` show at this dot, in that order.
pub open spec fn spec_shown_bgs(
    bg_pixels: Seq<Option<Pixel>>,
    win_bg: Seq<bool>,
    order: Seq<usize>,
) -> Seq<Pixel>
    decreases order.len(),
{
    if order.len() == 0 {
        Seq::empty()
    } else {
        let rest = spec_shown_bgs(bg_pixels, win_bg, order.drop_last());
        let bg = order.last() as int;
        if spec_bg_shown(bg_pixels, win_bg, bg) {
            rest.push(bg_pixels[bg]->0)
        } else {
            rest
        }
    }
}

/// The first position, from `from` on, of a background in `order` that an
/// object pixel of priority `obj_priority` is drawn above (its priority is at
/// most the background's); the length of `order` where there is none.
pub open spec fn spec_obj_slot(obj_priority: u8, order: Seq<usize>, priorities: Seq<u8>, from: int) -> int
    decreases order.len() - from,
{
    if from >= order.len() {
        order.len() as int
    } else if obj_priority <= priorities[order[from] as int] {
        from
    } else {
        spec_obj_slot(obj_priority, order, priorities, from + 1)
    }
}

/// The pixels at this dot from the top down: the shown backgrounds in
/// `order`, with the object pixel (where its window lets it through) above
/// the first background whose priority is not above its own.
pub open spec fn spec_layer_stack(
    bg_pixels: Seq<Option<Pixel>>,
    obj_pixel: Option<Pixel>,
    order: Seq<usize>,
    priorities: Seq<u8>,
    win_bg: Seq<bool>,
    win_obj: bool,
) -> Seq<Pixel> {
    if win_obj && obj_pixel is Some {
        let o = obj_pixel->0;
        let k = spec_obj_slot(o.priority, order, priorities, 0);
        spec_shown_bgs(bg_pixels, win_bg, order.take(k)) + seq![o] + spec_shown_bgs(
            bg_pixels,
            win_bg,
            order.skip(k),
        )
    } else {
        spec_shown_bgs(bg_pixels, win_bg, order)
    }
}

/// The pixel at position `j` of `stack`, or the backdrop below it.
pub open spec fn spec_layer_or_backdrop(stack: Seq<Pixel>, j: int, backdrop: Pixel) -> Pixel {
    if j < stack.len() {
        stack[j]
    } else {
        backdrop
    }
}

proof fn lemma_shown_bgs_append(
    bg_pixels: Seq<Option<Pixel>>,
    win_bg: Seq<bool>,
    a: Seq<usize>,
    b: Seq<usize>,
)
    ensures
        spec_shown_bgs(bg_pixels, win_bg, a + b) == spec_shown_bgs(bg_pixels, win_bg, a)
            + spec_shown_bgs(bg_pixels, win_bg, b),
    decreases b.len(),
{
    if b.len() == 0 {
        assert(a + b =~= a);
        assert(spec_shown_bgs(bg_pixels, win_bg, a) + spec_shown_bgs(bg_pixels, win_bg, b)
            =~= spec_shown_bgs(bg_pixels, win_bg, a));
    } else {
        lemma_shown_bgs_append(bg_pixels, win_bg, a, b.drop_last());
        assert((a + b).drop_last() =~= a + b.drop_last());
        assert((a + b).last() == b.last());
        let sa = spec_shown_bgs(bg_pixels, win_bg, a);
        let sb = spec_shown_bgs(bg_pixels, win_bg, b.drop_last());
        let bg = b.last() as int;
        if spec_bg_shown(bg_pixels, win_bg, bg) {
            assert((sa + sb).push(bg_pixels[bg]->0) =~= sa + sb.push(bg_pixels[bg]->0));
        }
    }
}

/// The shown pixels of `order` up to position `i` grow by the pixel of the
/// background at `i`, where it shows one.
proof fn lemma_shown_bgs_step(
    bg_pixels: Seq<Option<Pixel>>,
    win_bg: Seq<bool>,
    order: Seq<usize>,
    from: int,
    i: int,
)
    requires
        0 <= from <= i < order.len(),
    ensures
        spec_shown_bgs(bg_pixels, win_bg, order.subrange(from, i + 1)) == (if spec_bg_shown(
            bg_pixels,
            win_bg,
            order[i] as int,
        ) {
            spec_shown_bgs(bg_pixels, win_bg, order.subrange(from, i)).push(
                bg_pixels[order[i] as int]->0,
            )
        } else {
            spec_shown_bgs(bg_pixels, win_bg, order.subrange(from, i))
        }),
{
    assert(order.subrange(from, i + 1).drop_last() =~= order.subrange(from, i));
    assert(order.subrange(from, i + 1).last() == order[i]);
}

/// What the compositor has collected after walking the first `i` backgrounds.
spec fn spec_walked(
    bg_pixels: Seq<Option<Pixel>>,
    obj_pixel: Option<Pixel>,
    order: Seq<usize>,
    priorities: Seq<u8>,
    win_bg: Seq<bool>,
    win_obj: bool,
    i: int,
) -> Seq<Pixel> {
    if win_obj && obj_pixel is Some && spec_obj_slot(obj_pixel->0.priority, order, priorities, 0)
        < i {
        let k = spec_obj_slot(obj_pixel->0.priority, order, priorities, 0);
        spec_shown_bgs(bg_pixels, win_bg, order.subrange(0, k)) + seq![obj_pixel->0]
            + spec_shown_bgs(bg_pixels, win_bg, order.subrange(k, i))
    } else {
        spec_shown_bgs(bg_pixels, win_bg, order.subrange(0, i))
    }
}

proof fn lemma_slot_bounds(obj_priority: u8, order: Seq<usize>, priorities: Seq<u8>, from: int)
    requires
        0 <= from <= order.len(),
    ensures
        from <= spec_obj_slot(obj_priority, order, priorities, from) <= order.len(),
    decreases order.len() - from,
{
    if from < order.len() && !(obj_priority <= priorities[order[from] as int]) {
        lemma_slot_bounds(obj_priority, order, priorities, from + 1);
    }
}

/// What has been collected is where the whole stack starts.
proof fn lemma_walked_is_prefix(
    bg_pixels: Seq<Option<Pixel>>,
    obj_pixel: Option<Pixel>,
    order: Seq<usize>,
    priorities: Seq<u8>,
    win_bg: Seq<bool>,
    win_obj: bool,
    i: int,
)
    requires
        0 <= i <= order.len(),
        win_obj && obj_pixel is Some ==> spec_obj_slot(obj_pixel->0.priority, order, priorities, 0)
            <= order.len(),
    ensures
        ({
            let w = spec_walked(bg_pixels, obj_pixel, order, priorities, win_bg, win_obj, i);
            let s = spec_layer_stack(bg_pixels, obj_pixel, order, priorities, win_bg, win_obj);
            w.len() <= s.len() && forall|j: int| 0 <= j < w.len() ==> s[j] == w[j]
        }),
{
    let n = order.len() as int;
    let w = spec_walked(bg_pixels, obj_pixel, order, priorities, win_bg, win_obj, i);
    let s = spec_layer_stack(bg_pixels, obj_pixel, order, priorities, win_bg, win_obj);
    if win_obj && obj_pixel is Some {
        let o = obj_pixel->0;
        let k = spec_obj_slot(o.priority, order, priorities, 0);
        assert(k >= 0) by {
            lemma_slot_bounds(o.priority, order, priorities, 0);
        }
        assert(order.take(k) =~= order.subrange(0, k));
        assert(order.skip(k) =~= order.subrange(k, n));
        if k < i {
            assert(order.subrange(k, n) =~= order.subrange(k, i) + order.subrange(i, n));
            lemma_shown_bgs_append(bg_pixels, win_bg, order.subrange(k, i), order.subrange(i, n));
            let a = spec_shown_bgs(bg_pixels, win_bg, order.subrange(0, k));
            let b = spec_shown_bgs(bg_pixels, win_bg, order.subrange(k, i));
            let c = spec_shown_bgs(bg_pixels, win_bg, order.subrange(i, n));
            assert(s =~= w + c);
        } else {
            assert(order.subrange(0, k) =~= order.subrange(0, i) + order.subrange(i, k));
            lemma_shown_bgs_append(bg_pixels, win_bg, order.subrange(0, i), order.subrange(i, k));
            let b = spec_shown_bgs(bg_pixels, win_bg, order.subrange(i, k));
            let c = spec_shown_bgs(bg_pixels, win_bg, order.subrange(k, n));
            assert(s =~= w + (b + seq![o] + c));
        }
    } else {
        assert(order =~= order.subrange(0, i) + order.subrange(i, n));
        lemma_shown_bgs_append(bg_pixels, win_bg, order.subrange(0, i), order.subrange(i, n));
        let c = spec_shown_bgs(bg_pixels, win_bg, order.subrange(i, n));
        assert(s =~= w + c);
    }
}

/// The two topmost pixels at one dot of a line, which the color effects then
/// blend: the backgrounds are walked in `bg_order` (by priority), each one
/// shown where its window lets it through (`win_bg`) and its line has a
/// pixel; the object pixel, where its window lets it through (`win_obj`),
/// goes above the first walked background whose priority is not above its
/// own, else below all of them. Where fewer than two pixels are found the
/// backdrop stands in.
pub fn composite_layers(
    bg_pixels: &[Option<Pixel>],
    obj_pixel: Option<Pixel>,
    bg_order: &[usize],
    bg_priorities: &[u8],
    win_bg: &[bool],
    win_obj: bool,
    backdrop: Pixel,
) -> (r: (Pixel, Pixel))
    requires
        bg_pixels.len() == 4,
        bg_priorities.len() == 4,
        win_bg.len() == 4,
        forall|j: int| 0 <= j < bg_order.len() ==> bg_order[j] < 4,
    ensures
        ({
            let stack = spec_layer_stack(
                bg_pixels@,
                obj_pixel,
                bg_order@,
                bg_priorities@,
                win_bg@,
                win_obj,
            );
            &&& r.0 == spec_layer_or_backdrop(stack, 0, backdrop)
            &&& r.1 == spec_layer_or_backdrop(stack, 1, backdrop)
        }),
{
    let ghost bp = bg_pixels@;
    let ghost order = bg_order@;
    let ghost prios = bg_priorities@;
    let ghost wb = win_bg@;
    let n = bg_order.len();
    let mut obj: Option<Pixel> = if win_obj {
        obj_pixel
    } else {
        None
    };
    let mut first: Option<Pixel> = None;
    let mut second: Option<Pixel> = None;
    let mut i: usize = 0;
    proof {
        if win_obj && obj_pixel is Some {
            lemma_slot_bounds(obj_pixel->0.priority, order, prios, 0);
        }
        assert(order.subrange(0, 0) =~= Seq::<usize>::empty());
    }
    while i < n && second.is_none()
        invariant
            n == bg_order.len(),
            bp == bg_pixels@,
            order == bg_order@,
            prios == bg_priorities@,
            wb == win_bg@,
            bg_pixels.len() == 4,
            bg_priorities.len() == 4,
            win_bg.len() == 4,
            forall|j: int| 0 <= j < bg_order.len() ==> bg_order[j] < 4,
            0 <= i <= n,
            win_obj && obj_pixel is Some ==> 0 <= spec_obj_slot(obj_pixel->0.priority, order, prios, 0)
                <= n,
            obj == (if win_obj && obj_pixel is Some && spec_obj_slot(
                obj_pixel->0.priority,
                order,
                prios,
                0,
            ) >= i {
                obj_pixel
            } else {
                None
            }),
            win_obj && obj_pixel is Some && spec_obj_slot(obj_pixel->0.priority, order, prios, 0)
                >= i ==> spec_obj_slot(obj_pixel->0.priority, order, prios, 0) == spec_obj_slot(
                obj_pixel->0.priority,
                order,
                prios,
                i as int,
            ),
            ({
                let w = spec_walked(bp, obj_pixel, order, prios, wb, win_obj, i as int);
                &&& first == (if w.len() > 0 {
                    Some(w[0])
                } else {
                    None::<Pixel>
                })
                &&& second == (if w.len() > 1 {
                    Some(w[1])
                } else {
                    None::<Pixel>
                })
            }),
        decreases n - i,
    {
        let ghost w0 = spec_walked(bp, obj_pixel, order, prios, wb, win_obj, i as int);
        let ghost ii = i as int;
        let bg = bg_order[i];
        proof {
            lemma_shown_bgs_step(bp, wb, order, 0, ii);
            if win_obj && obj_pixel is Some {
                let k = spec_obj_slot(obj_pixel->0.priority, order, prios, 0);
                if k < ii {
                    lemma_shown_bgs_step(bp, wb, order, k, ii);
                } else {
                    lemma_slot_bounds(obj_pixel->0.priority, order, prios, ii + 1);
                    assert(order.subrange(ii, ii) =~= Seq::<usize>::empty());
                    lemma_shown_bgs_step(bp, wb, order, ii, ii);
                }
            }
        }
        let mut placed = false;
        if let Some(o) = obj {
            if o.priority <= bg_priorities[bg] {
                obj = None;
                placed = true;
                if first.is_none() {
                    first = Some(o);
                } else {
                    second = Some(o);
                }
            }
        }
        let ghost w1 = if placed {
            w0.push(obj_pixel->0)
        } else {
            w0
        };
        assert(first == (if w1.len() > 0 {
            Some(w1[0])
        } else {
            None::<Pixel>
        }));
        assert(second == (if w1.len() > 1 {
            Some(w1[1])
        } else {
            None::<Pixel>
        }));
        if second.is_none() && win_bg[bg] {
            if let Some(p) = bg_pixels[bg] {
                if first.is_none() {
                    first = Some(p);
                } else {
                    second = Some(p);
                }
            }
        }
        i = i + 1;
        proof {
            let w2 = spec_walked(bp, obj_pixel, order, prios, wb, win_obj, i as int);
            let shown = spec_bg_shown(bp, wb, order[ii] as int);
            let px = bp[order[ii] as int]->0;
            let w3 = if shown {
                w1.push(px)
            } else {
                w1
            };
            if win_obj && obj_pixel is Some {
                let o = obj_pixel->0;
                let k = spec_obj_slot(o.priority, order, prios, 0);
                let a = spec_shown_bgs(bp, wb, order.subrange(0, k));
                if k < ii {
                    assert(!placed);
                    let x = spec_shown_bgs(bp, wb, order.subrange(k, ii));
                    assert(w0 == a + seq![o] + x);
                    if shown {
                        assert(w2 =~= (a + seq![o] + x).push(px));
                    } else {
                        assert(w2 =~= w0);
                    }
                } else if k == ii {
                    assert(placed);
                    assert(w0 == a);
                    if shown {
                        assert(w2 =~= (a + seq![o]).push(px));
                    } else {
                        assert(w2 =~= a + seq![o]);
                    }
                } else {
                    assert(!placed);
                }
            }
            assert(w2 =~= w3);
        }
    }
    proof {
        lemma_walked_is_prefix(bp, obj_pixel, order, prios, wb, win_obj, i as int);
    }
    if let Some(o) = obj {
        proof {
            let k = spec_obj_slot(o.priority, order, prios, 0);
            let w = spec_walked(bp, obj_pixel, order, prios, wb, win_obj, i as int);
            if i == n {
                assert(order.take(k) =~= order.subrange(0, n as int));
                assert(order.skip(k) =~= Seq::<usize>::empty());
                assert(spec_layer_stack(bp, obj_pixel, order, prios, wb, win_obj) =~= w + seq![o]);
            }
        }
        if first.is_none() {
            first = Some(o);
        } else if second.is_none() {
            second = Some(o);
        }
    } else {
        proof {
            let w = spec_walked(bp, obj_pixel, order, prios, wb, win_obj, i as int);
            let s = spec_layer_stack(bp, obj_pixel, order, prios, wb, win_obj);
            if i == n {
                if win_obj && obj_pixel is Some {
                    let k = spec_obj_slot(obj_pixel->0.priority, order, prios, 0);
                    assert(order.take(k) =~= order.subrange(0, k));
                    assert(order.skip(k) =~= order.subrange(k, n as int));
                    assert(s =~= w);
                } else {
                    assert(order.subrange(0, n as int) =~= order);
                    assert(s =~= w);
                }
            }
        }
    }
    let top = match first {
        Some(p) => p,
        None => backdrop,
    };
    let below = match second {
        Some(p) => p,
        None => backdrop,
    };
    (top, below)
}

} // verus!
