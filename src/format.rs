//! The pieces every line is made of: a character's name tag, gauges,
//! equipment, inventory, attacks and gold.

use crate::gauge::{bar_slots, bar_slots_spec};
use crate::model::{Attack, Character, Game};
use crate::order::{lemma_sorted_unique, sort_texts, sorted};
use crate::style::{
    colored_view, plain_view, push_span, views, Color, Span, SpanView,
};
use crate::text::{decimal, int_text, pad_left, pad_left_spec, repeat_char, repeated};
use vstd::prelude::*;

verus! {

/// Texts separated by commas.
pub open spec fn comma_joined(items: Seq<Seq<char>>) -> Seq<char>
    decreases items.len(),
{
    if items.len() == 0 {
        Seq::empty()
    } else if items.len() == 1 {
        items[0]
    } else {
        comma_joined(items.drop_last()) + ","@ + items.last()
    }
}

/// `label{a,b,...}`.
pub open spec fn braced(label: Seq<char>, items: Seq<Seq<char>>) -> Seq<char> {
    label + "{"@ + comma_joined(items) + "}"@
}

/// The name tag: the name right-aligned in eight columns and in bold
/// (yellow too for an enemy), then the level in brackets.
pub open spec fn character_view(c: Character) -> Seq<SpanView> {
    seq![
        SpanView {
            text: pad_left_spec(c.name@, 8),
            color: if c.is_player { None } else { Some(Color::Yellow) },
            bold: true,
        },
        plain_view("["@ + decimal(c.level as int) + "]"@),
    ]
}

/// A gauge `slots` wide: `[`, filled slots as `x`, empty slots as `-`, `]`.
pub open spec fn bar_view(
    slots: int,
    current: int,
    total: int,
    full: Color,
    missing: Color,
) -> Seq<SpanView> {
    seq![
        plain_view("["@),
        colored_view(repeated('x', bar_slots_spec(slots, total, current).0), full),
        colored_view(repeated('-', bar_slots_spec(slots, total, current).1), missing),
        plain_view("]"@),
    ]
}

/// The hit point gauge, green over red.
pub open spec fn hp_view(c: Character, slots: int) -> Seq<SpanView> {
    bar_view(slots, c.current_hp as int, c.max_hp as int, Color::Green, Color::Red)
}

/// The experience gauge, cyan over bright black; nothing for an enemy.
pub open spec fn xp_view(c: Character, slots: int) -> Seq<SpanView> {
    if c.is_player {
        bar_view(slots, c.xp as int, c.xp_for_next as int, Color::Cyan, Color::BrightBlack)
    } else {
        Seq::empty()
    }
}

/// The equipped items, sword first; absent ones are left out.
pub open spec fn equipment_items(c: Character) -> Seq<Seq<char>> {
    (if c.sword is Some {
        seq![c.sword->0@]
    } else {
        Seq::empty()
    }) + (if c.shield is Some {
        seq![c.shield->0@]
    } else {
        Seq::empty()
    })
}

/// An inventory entry: the name, `x`, the count.
pub open spec fn entry_text(name: Seq<char>, count: int) -> Seq<char> {
    name + "x"@ + decimal(count)
}

/// The entries of an inventory, in its own order.
pub open spec fn inventory_entries(inventory: Seq<(String, i32)>) -> Seq<Seq<char>> {
    inventory.map_values(|e: (String, i32)| entry_text(e.0@, e.1 as int))
}

/// The entries of an inventory in lexicographic order: the one sorted
/// arrangement of them.
pub open spec fn sorted_entries(inventory: Seq<(String, i32)>) -> Seq<Seq<char>> {
    choose|e: Seq<Seq<char>>|
        sorted(e) && e.to_multiset() == inventory_entries(inventory).to_multiset()
}

/// The inventory as `item:{namexcount,...}`, entries in lexicographic order.
pub open spec fn inventory_text(inventory: Seq<(String, i32)>) -> Seq<char> {
    braced("item:"@, sorted_entries(inventory))
}

/// An attack's outcome: damage in the given color, a miss unstyled.
pub open spec fn attack_view(a: Attack, color: Color) -> SpanView {
    match a {
        Attack::Regular(d) => colored_view("-"@ + decimal(d as int) + "hp"@, color),
        Attack::Critical(d) => colored_view("-"@ + decimal(d as int) + "hp critical!"@, color),
        Attack::Miss => plain_view(" dodged!"@),
    }
}

/// An amount of gold, in yellow.
pub open spec fn gold_view(gold: int) -> SpanView {
    colored_view(decimal(gold) + "g"@, Color::Yellow)
}

/// A gain of gold, in yellow.
pub open spec fn gold_plus_view(gold: int) -> SpanView {
    colored_view("+"@ + decimal(gold) + "g"@, Color::Yellow)
}

/// Texts separated by commas.
pub fn join_comma(items: &Vec<String>) -> (r: String)
    ensures
        r@ == comma_joined(items@.map_values(|s: String| s@)),
{
    let ghost all = items@.map_values(|s: String| s@);
    let mut r = String::new();
    let mut i: usize = 0;
    while i < items.len()
        invariant
            i <= items@.len(),
            all == items@.map_values(|s: String| s@),
            r@ == comma_joined(all.take(i as int)),
        decreases items@.len() - i,
    {
        if i > 0 {
            r.append(",");
        }
        r.append(items[i].as_str());
        assert(all.take(i + 1).drop_last() =~= all.take(i as int));
        i = i + 1;
    }
    assert(all.take(i as int) =~= all);
    r
}

/// `label{a,b,...}`.
fn braced_text(label: &str, items: &Vec<String>) -> (r: String)
    ensures
        r@ == braced(label@, items@.map_values(|s: String| s@)),
{
    let mut r = String::from_str(label);
    r.append("{");
    r.append(join_comma(items).as_str());
    r.append("}");
    r
}

/// The character's name tag.
pub fn format_character(c: &Character) -> (r: Vec<Span>)
    ensures
        views(r@) == character_view(*c),
{
    let name = pad_left(c.name.as_str(), 8);
    let color = if c.is_player {
        None
    } else {
        Some(Color::Yellow)
    };
    let mut r: Vec<Span> = Vec::new();
    push_span(&mut r, Span { text: name, color, bold: true });
    let mut level = String::from_str("[");
    level.append(int_text(c.level).as_str());
    level.append("]");
    push_span(&mut r, Span::plain(level));
    assert(views(r@) =~= character_view(*c));
    r
}

/// A gauge `slots` wide for `current` out of `total`.
pub fn bar_display(
    slots: i32,
    current: i32,
    total: i32,
    full: Color,
    missing: Color,
) -> (r: Vec<Span>)
    ensures
        views(r@) == bar_view(slots as int, current as int, total as int, full, missing),
{
    let (filled, empty) = bar_slots(slots, total, current);
    let filled_count: usize = if filled > 0 {
        filled as usize
    } else {
        0
    };
    let empty_count: usize = if empty > 0 {
        empty as usize
    } else {
        0
    };
    let mut r: Vec<Span> = Vec::new();
    push_span(&mut r, Span::plain(String::from_str("[")));
    push_span(&mut r, Span::colored(repeat_char('x', filled_count), full));
    push_span(&mut r, Span::colored(repeat_char('-', empty_count), missing));
    push_span(&mut r, Span::plain(String::from_str("]")));
    assert(repeated('x', filled_count as int) =~= repeated('x', filled as int));
    assert(repeated('-', empty_count as int) =~= repeated('-', empty as int));
    assert(views(r@) =~= bar_view(slots as int, current as int, total as int, full, missing));
    r
}

/// The hit point gauge.
pub fn hp_display(c: &Character, slots: i32) -> (r: Vec<Span>)
    ensures
        views(r@) == hp_view(*c, slots as int),
{
    bar_display(slots, c.current_hp, c.max_hp, Color::Green, Color::Red)
}

/// The experience gauge; empty for an enemy.
pub fn xp_display(c: &Character, slots: i32) -> (r: Vec<Span>)
    ensures
        views(r@) == xp_view(*c, slots as int),
{
    if c.is_player {
        bar_display(slots, c.xp, c.xp_for_next, Color::Cyan, Color::BrightBlack)
    } else {
        let r: Vec<Span> = Vec::new();
        assert(views(r@) =~= Seq::empty());
        r
    }
}

/// `equip:{sword,shield}`, with only the equipped items.
pub fn format_equipment(c: &Character) -> (r: String)
    ensures
        r@ == braced("equip:"@, equipment_items(*c)),
{
    let mut fragments: Vec<String> = Vec::new();
    if let Some(sword) = &c.sword {
        fragments.push(sword.clone());
    }
    if let Some(shield) = &c.shield {
        fragments.push(shield.clone());
    }
    assert(fragments@.map_values(|s: String| s@) =~= equipment_items(*c));
    braced_text("equip:", &fragments)
}

/// `item:{namexcount,...}`, the entries in lexicographic order of their text.
pub fn format_inventory(game: &Game) -> (r: String)
    ensures
        r@ == inventory_text(game.inventory@),
{
    let ghost inv = game.inventory@;
    let mut entries: Vec<String> = Vec::new();
    let mut i: usize = 0;
    while i < game.inventory.len()
        invariant
            i <= inv.len(),
            inv == game.inventory@,
            entries@.map_values(|s: String| s@) == inventory_entries(inv.take(i as int)),
        decreases inv.len() - i,
    {
        let mut entry = game.inventory[i].0.clone();
        entry.append("x");
        entry.append(int_text(game.inventory[i].1).as_str());
        let ghost before = entries@;
        let ghost e = entry@;
        assert(e == entry_text(inv[i as int].0@, inv[i as int].1 as int));
        entries.push(entry);
        assert(entries@.map_values(|s: String| s@) =~= before.map_values(|s: String| s@).push(e));
        assert(inventory_entries(inv.take(i + 1)) =~= inventory_entries(inv.take(i as int)).push(
            e,
        ));
        i = i + 1;
    }
    assert(inv.take(i as int) =~= inv);
    let in_order = sort_texts(entries);
    proof {
        let e = in_order@.map_values(|s: String| s@);
        assert(sorted(e) && e.to_multiset() == inventory_entries(inv).to_multiset());
        lemma_sorted_unique(e, sorted_entries(inv));
    }
    braced_text("item:", &in_order)
}

/// An attack's outcome.
pub fn format_attack(a: Attack, color: Color) -> (r: Span)
    ensures
        r@ == attack_view(a, color),
{
    match a {
        Attack::Regular(d) => {
            let mut t = String::from_str("-");
            t.append(int_text(d).as_str());
            t.append("hp");
            Span::colored(t, color)
        },
        Attack::Critical(d) => {
            let mut t = String::from_str("-");
            t.append(int_text(d).as_str());
            t.append("hp critical!");
            Span::colored(t, color)
        },
        Attack::Miss => Span::plain(String::from_str(" dodged!")),
    }
}

/// `{gold}g` in yellow.
pub fn format_gold(gold: i32) -> (r: Span)
    ensures
        r@ == gold_view(gold as int),
{
    let mut t = int_text(gold);
    t.append("g");
    Span::colored(t, Color::Yellow)
}

/// `+{gold}g` in yellow.
pub fn format_gold_plus(gold: i32) -> (r: Span)
    ensures
        r@ == gold_plus_view(gold as int),
{
    let mut t = String::from_str("+");
    t.append(int_text(gold).as_str());
    t.append("g");
    Span::colored(t, Color::Yellow)
}

} // verus!
