//! Entity names and card texts built from configured names.

use vstd::prelude::*;

verus! {

/// Whether `c` is kept in an entity name (spaces are dropped).
pub open spec fn kept_in_name(c: char) -> bool {
    c != ' '
}

/// The characters kept in an entity name.
pub open spec fn name_filter() -> spec_fn(char) -> bool {
    |c: char| kept_in_name(c)
}

/// The entity name for an actor or projectile named `name`: the name with
/// its spaces removed.
pub fn entity_name(name: &str) -> (entity: String)
    ensures
        entity@ == name@.filter(name_filter()),
{
    let n = name.unicode_len();
    let mut entity = String::new();
    let mut i: usize = 0;
    proof {
        reveal_with_fuel(Seq::<_>::filter, 1);
        assert(name@.take(0).filter(name_filter()) =~= Seq::<char>::empty());
    }
    while i < n
        invariant
            n == name@.len(),
            0 <= i <= n,
            entity@ == name@.take(i as int).filter(name_filter()),
        decreases n - i,
    {
        let c = name.get_char(i);
        proof {
            assert(name@.take(i + 1).drop_last() =~= name@.take(i as int));
            assert(name@.take(i + 1).last() == c);
        }
        let ghost prev = entity@;
        proof {
            let t = name@.take(i + 1);
            reveal_with_fuel(Seq::<_>::filter, 1);
            assert(t.filter(name_filter()) == if name_filter()(t.last()) {
                t.drop_last().filter(name_filter()).push(t.last())
            } else {
                t.drop_last().filter(name_filter())
            });
        }
        if c != ' ' {
            let piece = name.substring_char(i, i + 1);
            assert(piece@ =~= seq![c]);
            entity.append(piece);
        }
        i = i + 1;
    }
    assert(name@.take(n as int) =~= name@);
    entity
}

/// The entity name of a card: `Card("<name>")`.
pub fn card_entity_name(name: &str) -> (entity: String)
    ensures
        entity@ == "Card(\""@ + name@ + "\")"@,
{
    let mut entity = String::from_str("Card(\"");
    entity.append(name);
    entity.append("\")");
    entity
}

/// The rich-text tooltip of a card: its name in bold, a blank line, then its
/// description.
pub fn card_tooltip(name: &str, description: &str) -> (tooltip: String)
    ensures
        tooltip@ == "[b]"@ + name@ + "[r]\n\n"@ + description@,
{
    let mut tooltip = String::from_str("[b]");
    tooltip.append(name);
    tooltip.append("[r]\n\n");
    tooltip.append(description);
    tooltip
}

} // verus!
