//! What holds of the registry and of the terminal context across calls.

use vstd::prelude::*;
use crate::bterm::{
    console_added, font_added, keeps_handles, resized, sent_to, BTerm, BTermInternal,
    DisplayConsole, Font,
};
use crate::console::ConsoleOp;
use crate::rex::{
    cell_op, layer_ops, layers_ops, row_ops, rows_ops, sprite_ops, XpColor, XpFileView,
    XpLayerView,
};

verus! {

/// A registry keeps the handles of itself.
pub proof fn lemma_keeps_handles_reflexive(registry: BTermInternal)
    ensures
        keeps_handles(registry, registry),
{
}

/// Handles that are kept from `a` to `b` and from `b` to `c` are kept from
/// `a` to `c`.
pub proof fn lemma_keeps_handles_transitive(a: BTermInternal, b: BTermInternal, c: BTermInternal)
    requires
        keeps_handles(a, b),
        keeps_handles(b, c),
    ensures
        keeps_handles(a, c),
{
    assert forall|i: int| 0 <= i < a.consoles@.len() implies {
        &&& (#[trigger] c.consoles@[i]).font_index == a.consoles@[i].font_index
        &&& c.consoles@[i].shader_index == a.consoles@[i].shader_index
    } by {
        assert(b.consoles@[i].font_index == a.consoles@[i].font_index);
    }
}

/// Registering a font keeps every handle.
pub proof fn lemma_font_added_keeps_handles(
    before: BTermInternal,
    after: BTermInternal,
    font: Font,
)
    requires
        font_added(before, after, font),
    ensures
        keeps_handles(before, after),
{
}

/// Registering a console keeps every handle.
pub proof fn lemma_console_added_keeps_handles(
    before: BTermInternal,
    after: BTermInternal,
    slot: DisplayConsole,
)
    requires
        console_added(before, after, slot),
    ensures
        keeps_handles(before, after),
{
}

/// Drawing on a console keeps every handle.
pub proof fn lemma_sent_to_keeps_handles(
    before: BTermInternal,
    after: BTermInternal,
    target: int,
    ops: Seq<ConsoleOp>,
)
    requires
        0 <= target < before.consoles@.len(),
        sent_to(before, after, target, ops),
    ensures
        keeps_handles(before, after),
{
    assert forall|i: int| 0 <= i < before.consoles@.len() implies {
        &&& (#[trigger] after.consoles@[i]).font_index == before.consoles@[i].font_index
        &&& after.consoles@[i].shader_index == before.consoles@[i].shader_index
    } by {
        if i != target {
            assert(after.consoles@[i] == before.consoles@[i]);
        }
    }
}

/// Resizing the window keeps every handle.
pub proof fn lemma_resized_keeps_handles(
    before: BTermInternal,
    after: BTermInternal,
    width: u32,
    height: u32,
)
    requires
        resized(before, after, width, height),
    ensures
        keeps_handles(before, after),
{
}

/// Console handles are handed out in strictly increasing order and never
/// again: of two registrations, with anything between them that keeps the
/// handles, the later one returns the larger handle, and the first console
/// is still bound to its font and its shader under its own handle.
pub proof fn lemma_console_handles_increase(
    a: BTermInternal,
    b: BTermInternal,
    c: BTermInternal,
    d: BTermInternal,
    first: DisplayConsole,
    second: DisplayConsole,
)
    requires
        console_added(a, b, first),
        keeps_handles(b, c),
        console_added(c, d, second),
    ensures
        a.consoles@.len() < c.consoles@.len(),
        d.consoles@[a.consoles@.len() as int].font_index == first.font_index,
        d.consoles@[a.consoles@.len() as int].shader_index == first.shader_index,
        d.consoles@[c.consoles@.len() as int] == second,
{
    let handle = a.consoles@.len() as int;
    assert(b.consoles@[handle] == first);
    assert(c.consoles@[handle].font_index == b.consoles@[handle].font_index);
    assert(d.consoles@[handle] == c.consoles@[handle]);
}

/// Font handles are handed out in strictly increasing order and never
/// again: of two registrations, with anything between them that keeps the
/// handles, the later one returns the larger handle, and the first font is
/// still found under its own handle.
pub proof fn lemma_font_handles_increase(
    a: BTermInternal,
    b: BTermInternal,
    c: BTermInternal,
    d: BTermInternal,
    first: Font,
    second: Font,
)
    requires
        font_added(a, b, first),
        keeps_handles(b, c),
        font_added(c, d, second),
    ensures
        a.fonts@.len() < c.fonts@.len(),
        d.fonts@[a.fonts@.len() as int] == first,
        d.fonts@[c.fonts@.len() as int] == second,
{
    let handle = a.fonts@.len() as int;
    assert(b.fonts@[handle] == first);
    assert(c.fonts@[handle] == b.fonts@[handle]);
}

/// The tile under the mouse depends on the mouse position, the window's
/// size and the console's grid alone: asked again with these unchanged, the
/// context gives the same tile.
pub proof fn lemma_mouse_tile_is_repeatable(first: BTerm, second: BTerm, char_size: (u32, u32))
    requires
        first.mouse_pos == second.mouse_pos,
        first.width_pixels == second.width_pixels,
        first.height_pixels == second.height_pixels,
    ensures
        first.mouse_tile_in(char_size) == second.mouse_tile_in(char_size),
{
}

/// Once console `id` has been made the active one, what the context draws
/// reaches console `id` and no other console.
pub proof fn lemma_drawing_follows_selection(
    context: BTerm,
    id: usize,
    before: BTermInternal,
    after: BTermInternal,
    ops: Seq<ConsoleOp>,
)
    requires
        id < before.consoles@.len(),
        sent_to(
            before,
            after,
            (BTerm { active_console: id, ..context }).active_console as int,
            ops,
        ),
    ensures
        after.console_model(id as int).history == before.console_model(id as int).history + ops,
        forall|i: int|
            0 <= i < before.consoles@.len() && i != id ==> after.console_model(i)
                == before.console_model(i),
{
    assert forall|i: int| 0 <= i < before.consoles@.len() && i != id implies after.console_model(
        i,
    ) == before.console_model(i) by {
        assert(after.consoles@[i] == before.consoles@[i]);
    }
}

/// A resize reaches every registered console: the last request that each
/// of them has received is the one for the new size.
pub proof fn lemma_resize_reaches_every_console(
    before: BTermInternal,
    after: BTermInternal,
    width: u32,
    height: u32,
    console: int,
)
    requires
        resized(before, after, width, height),
        0 <= console < before.consoles@.len(),
    ensures
        after.console_model(console).history.len() == before.console_model(console).history.len()
            + 1,
        after.console_model(console).history.last() == (ConsoleOp::ResizePixels { width, height }),
{
    assert(after.consoles@[console].font_index == before.consoles@[console].font_index);
}

/// Of the first `upto` cells of a row, each one whose background is not
/// transparent is drawn, none of the others is, and the cells are drawn at
/// most once each.
pub proof fn lemma_row_ops_draw_opaque_cells(
    layer: XpLayerView,
    y: int,
    upto: nat,
    offset_x: int,
    offset_y: int,
)
    ensures
        row_ops(layer, y, upto, offset_x, offset_y).len() <= upto,
        forall|x: int|
            0 <= x < upto && layer.cell(x, y).bg != XpColor::transparent() ==> row_ops(
                layer,
                y,
                upto,
                offset_x,
                offset_y,
            ).contains(#[trigger] cell_op(layer, x, y, offset_x, offset_y)),
        forall|k: int|
            0 <= k < row_ops(layer, y, upto, offset_x, offset_y).len() ==> exists|x: int|
                0 <= x < upto && layer.cell(x, y).bg != XpColor::transparent()
                    && (#[trigger] row_ops(layer, y, upto, offset_x, offset_y)[k]) == cell_op(
                    layer,
                    x,
                    y,
                    offset_x,
                    offset_y,
                ),
    decreases upto,
{
    if upto > 0 {
        let before = row_ops(layer, y, (upto - 1) as nat, offset_x, offset_y);
        let all = row_ops(layer, y, upto, offset_x, offset_y);
        lemma_row_ops_draw_opaque_cells(layer, y, (upto - 1) as nat, offset_x, offset_y);
        let opaque = layer.cell(upto - 1, y).bg != XpColor::transparent();
        assert forall|x: int|
            0 <= x < upto && layer.cell(x, y).bg != XpColor::transparent() implies all.contains(
            #[trigger] cell_op(layer, x, y, offset_x, offset_y),
        ) by {
            if x < upto - 1 {
                assert(before.contains(cell_op(layer, x, y, offset_x, offset_y)));
                let k = choose|k: int|
                    0 <= k < before.len() && before[k] == cell_op(layer, x, y, offset_x, offset_y);
                assert(all[k] == cell_op(layer, x, y, offset_x, offset_y));
            } else {
                assert(all[all.len() - 1] == cell_op(layer, x, y, offset_x, offset_y));
            }
        }
        assert forall|k: int| 0 <= k < all.len() implies exists|x: int|
            0 <= x < upto && layer.cell(x, y).bg != XpColor::transparent() && (#[trigger] all[k])
                == cell_op(layer, x, y, offset_x, offset_y) by {
            if k < before.len() {
                let x = choose|x: int|
                    0 <= x < upto - 1 && layer.cell(x, y).bg != XpColor::transparent() && before[k]
                        == cell_op(layer, x, y, offset_x, offset_y);
                assert(0 <= x < upto && layer.cell(x, y).bg != XpColor::transparent() && all[k]
                    == cell_op(layer, x, y, offset_x, offset_y));
            } else {
                assert(opaque);
                assert(0 <= upto - 1 < upto && layer.cell(upto - 1, y).bg
                    != XpColor::transparent() && all[k] == cell_op(
                    layer,
                    upto - 1,
                    y,
                    offset_x,
                    offset_y,
                ));
            }
        }
    }
}

/// A row whose cells all have the transparent background asks nothing of
/// the console.
pub proof fn lemma_transparent_row_draws_nothing(
    layer: XpLayerView,
    y: int,
    upto: nat,
    offset_x: int,
    offset_y: int,
)
    requires
        forall|x: int| 0 <= x < upto ==> (#[trigger] layer.cell(x, y)).bg == XpColor::transparent(),
    ensures
        row_ops(layer, y, upto, offset_x, offset_y) == Seq::<ConsoleOp>::empty(),
    decreases upto,
{
    if upto > 0 {
        lemma_transparent_row_draws_nothing(layer, y, (upto - 1) as nat, offset_x, offset_y);
        assert(layer.cell(upto - 1, y).bg == XpColor::transparent());
    }
}

/// Every cell of a layer whose background is not transparent is drawn.
pub proof fn lemma_layer_ops_draw_opaque_cells(
    layer: XpLayerView,
    upto: nat,
    offset_x: int,
    offset_y: int,
)
    ensures
        forall|x: int, y: int|
            0 <= x < layer.width && 0 <= y < upto && layer.cell(x, y).bg
                != XpColor::transparent() ==> rows_ops(layer, upto, offset_x, offset_y).contains(
                #[trigger] cell_op(layer, x, y, offset_x, offset_y),
            ),
    decreases upto,
{
    if upto > 0 {
        let before = rows_ops(layer, (upto - 1) as nat, offset_x, offset_y);
        let row = row_ops(layer, upto - 1, layer.width, offset_x, offset_y);
        let all = rows_ops(layer, upto, offset_x, offset_y);
        assert(all == before + row);
        lemma_layer_ops_draw_opaque_cells(layer, (upto - 1) as nat, offset_x, offset_y);
        lemma_row_ops_draw_opaque_cells(layer, upto - 1, layer.width, offset_x, offset_y);
        assert forall|x: int, y: int|
            0 <= x < layer.width && 0 <= y < upto && layer.cell(x, y).bg
                != XpColor::transparent() implies all.contains(
            #[trigger] cell_op(layer, x, y, offset_x, offset_y),
        ) by {
            let op = cell_op(layer, x, y, offset_x, offset_y);
            if y < upto - 1 {
                assert(before.contains(op));
                let k = choose|k: int| 0 <= k < before.len() && before[k] == op;
                assert(all[k] == op);
            } else {
                assert(row.contains(op));
                let k = choose|k: int| 0 <= k < row.len() && row[k] == op;
                assert(all[before.len() + k] == op);
            }
        }
    }
}

/// Of the first `upto` layers of a file, every cell whose background is
/// not transparent is drawn.
pub proof fn lemma_layers_ops_draw_opaque_cells(
    file: XpFileView,
    upto: nat,
    layer: int,
    x: int,
    y: int,
    offset_x: int,
    offset_y: int,
)
    requires
        0 <= layer < upto,
        0 <= x < file.layers[layer].width,
        0 <= y < file.layers[layer].height,
        file.layers[layer].cell(x, y).bg != XpColor::transparent(),
    ensures
        layers_ops(file, upto, offset_x, offset_y).contains(
            cell_op(file.layers[layer], x, y, offset_x, offset_y),
        ),
    decreases upto,
{
    let before = layers_ops(file, (upto - 1) as nat, offset_x, offset_y);
    let top = layer_ops(file.layers[upto - 1], offset_x, offset_y);
    let all = layers_ops(file, upto, offset_x, offset_y);
    let op = cell_op(file.layers[layer], x, y, offset_x, offset_y);
    assert(all == before + top);
    if layer < upto - 1 {
        lemma_layers_ops_draw_opaque_cells(
            file,
            (upto - 1) as nat,
            layer,
            x,
            y,
            offset_x,
            offset_y,
        );
        let k = choose|k: int| 0 <= k < before.len() && before[k] == op;
        assert(all[k] == op);
    } else {
        lemma_layer_ops_draw_opaque_cells(
            file.layers[layer],
            file.layers[layer].height,
            offset_x,
            offset_y,
        );
        assert(top.contains(op));
        let k = choose|k: int| 0 <= k < top.len() && top[k] == op;
        assert(all[before.len() + k] == op);
    }
}

/// Drawing a sprite file draws every cell, of every layer, whose background
/// is not transparent: the console is asked to set the cell's glyph and
/// colours at the cell's place, moved by the offset.
pub proof fn lemma_sprite_draws_opaque_cells(
    file: XpFileView,
    layer: int,
    x: int,
    y: int,
    offset_x: int,
    offset_y: int,
)
    requires
        0 <= layer < file.layers.len(),
        0 <= x < file.layers[layer].width,
        0 <= y < file.layers[layer].height,
        file.layers[layer].cell(x, y).bg != XpColor::transparent(),
    ensures
        sprite_ops(file, offset_x, offset_y).contains(
            cell_op(file.layers[layer], x, y, offset_x, offset_y),
        ),
{
    lemma_layers_ops_draw_opaque_cells(file, file.layers.len(), layer, x, y, offset_x, offset_y);
}

/// A layer whose cells all have the transparent background asks nothing of
/// the console.
pub proof fn lemma_transparent_layer_draws_nothing(
    layer: XpLayerView,
    upto: nat,
    offset_x: int,
    offset_y: int,
)
    requires
        forall|x: int, y: int|
            0 <= x < layer.width && 0 <= y < upto ==> (#[trigger] layer.cell(x, y)).bg
                == XpColor::transparent(),
    ensures
        rows_ops(layer, upto, offset_x, offset_y) == Seq::<ConsoleOp>::empty(),
    decreases upto,
{
    if upto > 0 {
        lemma_transparent_layer_draws_nothing(layer, (upto - 1) as nat, offset_x, offset_y);
        lemma_transparent_row_draws_nothing(layer, upto - 1, layer.width, offset_x, offset_y);
    }
}

} // verus!
