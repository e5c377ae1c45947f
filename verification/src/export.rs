//! The read-only export: renders a snapshot of the listed game passes,
//! developer products and badges as a Lua table. The caller fetches the
//! listings and writes the text out; the text itself is pinned here.

use vstd::prelude::*;
use crate::text::{dec_string_of, u64_to_string};

verus! {

/// One listed resource as the export snapshot shows it.
pub struct ExportItem {
    pub name: String,
    pub id: u64,
    pub price: Option<u64>,
}

/// How one character stands inside a quoted Lua string: quotes,
/// backslashes and line breaks are escaped, everything else is itself.
pub open spec fn lua_escape_char(c: char) -> Seq<char> {
    if c == '"' {
        seq!['\\', '"']
    } else if c == '\\' {
        seq!['\\', '\\']
    } else if c == '\n' {
        seq!['\\', 'n']
    } else if c == '\r' {
        seq!['\\', 'r']
    } else {
        seq![c]
    }
}

/// A character sequence escaped for a quoted Lua string.
pub open spec fn lua_escaped(s: Seq<char>) -> Seq<char>
    decreases s.len(),
{
    if s.len() == 0 {
        Seq::<char>::empty()
    } else {
        lua_escaped(s.drop_last()) + lua_escape_char(s.last())
    }
}

/// Appends a name escaped for a quoted Lua string.
fn push_escaped(out: &mut String, s: &str)
    ensures
        final(out)@ == old(out)@ + lua_escaped(s@),
{
    let ghost base = out@;
    let len = s.unicode_len();
    let mut i: usize = 0;
    proof {
        assert(s@.subrange(0, 0) =~= Seq::<char>::empty());
        assert(base + lua_escaped(s@.subrange(0, 0)) =~= base);
    }
    while i < len
        invariant
            len == s@.len(),
            i <= len,
            out@ == base + lua_escaped(s@.subrange(0, i as int)),
        decreases len - i,
    {
        let c = s.get_char(i);
        if c == '"' {
            out.append("\\\"");
            proof {
                reveal_strlit("\\\"");
                assert(("\\\"")@ =~= lua_escape_char(c));
            }
        } else if c == '\\' {
            out.append("\\\\");
            proof {
                reveal_strlit("\\\\");
                assert(("\\\\")@ =~= lua_escape_char(c));
            }
        } else if c == '\n' {
            out.append("\\n");
            proof {
                reveal_strlit("\\n");
                assert(("\\n")@ =~= lua_escape_char(c));
            }
        } else if c == '\r' {
            out.append("\\r");
            proof {
                reveal_strlit("\\r");
                assert(("\\r")@ =~= lua_escape_char(c));
            }
        } else {
            let piece = s.substring_char(i, i + 1);
            out.append(piece);
            proof {
                assert(piece@ =~= lua_escape_char(c));
            }
        }
        proof {
            let pre = s@.subrange(0, i as int);
            let post = s@.subrange(0, i + 1);
            assert(post.drop_last() =~= pre);
            assert(post.last() == s@[i as int]);
            assert(out@ =~= base + lua_escaped(post));
        }
        i += 1;
    }
    proof {
        assert(s@.subrange(0, len as int) =~= s@);
    }
}

/// The text of one exported item; the name is escaped for its quoted
/// Lua string.
pub open spec fn lua_item(name: Seq<char>, id: u64, price: Option<u64>) -> Seq<char> {
    "    {\n      name = \""@ + lua_escaped(name) + "\",\n      id = "@ + dec_string_of(id as nat)
        + ",\n"@ + (match price {
        Some(p) => "      price = "@ + dec_string_of(p as nat) + ",\n"@,
        None => Seq::<char>::empty(),
    }) + "    },\n"@
}

/// The text of a block of exported items, in listing order.
pub open spec fn lua_items(items: Seq<ExportItem>) -> Seq<char>
    decreases items.len(),
{
    if items.len() == 0 {
        Seq::<char>::empty()
    } else {
        lua_items(items.drop_last()) + lua_item(
            items.last().name@,
            items.last().id,
            items.last().price,
        )
    }
}

/// The whole snapshot: one Lua table with one block per category.
pub open spec fn lua_snapshot(
    passes: Seq<ExportItem>,
    products: Seq<ExportItem>,
    badges: Seq<ExportItem>,
) -> Seq<char> {
    "return {\n  game_passes = {\n"@ + lua_items(passes) + "  },\n  developer_products = {\n"@
        + lua_items(products) + "  },\n  badges = {\n"@ + lua_items(badges) + "  },\n}\n"@
}

fn push_item(out: &mut String, item: &ExportItem)
    ensures
        final(out)@ == old(out)@ + lua_item(item.name@, item.id, item.price),
{
    out.append("    {\n      name = \"");
    push_escaped(out, item.name.as_str());
    out.append("\",\n      id = ");
    let id_text = u64_to_string(item.id);
    out.append(id_text.as_str());
    out.append(",\n");
    match item.price {
        Some(p) => {
            out.append("      price = ");
            let price_text = u64_to_string(p);
            out.append(price_text.as_str());
            out.append(",\n");
        },
        None => {},
    }
    out.append("    },\n");
    assert(out@ =~= old(out)@ + lua_item(item.name@, item.id, item.price));
}

fn push_items(out: &mut String, items: &Vec<ExportItem>)
    ensures
        final(out)@ == old(out)@ + lua_items(items@),
{
    let ghost base = out@;
    let mut i: usize = 0;
    proof {
        assert(items@.subrange(0, 0) =~= Seq::<ExportItem>::empty());
        assert(base + lua_items(items@.subrange(0, 0)) =~= base);
    }
    while i < items.len()
        invariant
            i <= items@.len(),
            out@ == base + lua_items(items@.subrange(0, i as int)),
        decreases items@.len() - i,
    {
        let ghost pre = items@.subrange(0, i as int);
        let ghost post = items@.subrange(0, i + 1);
        push_item(out, &items[i]);
        proof {
            assert(post.drop_last() =~= pre);
            assert(post.last() == items@[i as int]);
            assert(out@ =~= base + lua_items(post));
        }
        i += 1;
    }
    proof {
        assert(items@.subrange(0, items@.len() as int) =~= items@);
    }
}

/// Renders the export snapshot of the three listings.
pub fn export_snapshot(
    passes: &Vec<ExportItem>,
    products: &Vec<ExportItem>,
    badges: &Vec<ExportItem>,
) -> (r: String)
    ensures
        r@ == lua_snapshot(passes@, products@, badges@),
{
    let mut out = String::new();
    out.append("return {\n  game_passes = {\n");
    push_items(&mut out, passes);
    out.append("  },\n  developer_products = {\n");
    push_items(&mut out, products);
    out.append("  },\n  badges = {\n");
    push_items(&mut out, badges);
    out.append("  },\n}\n");
    assert(out@ =~= lua_snapshot(passes@, products@, badges@));
    out
}

} // verus!
