//! The diagnostic dump of the runtime state: one line of text that names the
//! type and lists the imports, the source, the number of operations, the
//! index hashes, the number of loaded namespaces, whether there is an
//! embedded resolver, and the global constants.

use crate::constants::ascending;
use crate::constants::snapshot_entries;
use crate::constants::ConstantEntry;
use crate::dynamic::Dynamic;
use crate::global_state::GlobalRuntimeState;
use crate::global_state::GlobalRuntimeStateView;
use crate::imports::listed;
use crate::imports::ImportEntry;
use crate::module::SharedModule;
use crate::render::decimal;
use crate::render::dynamic_text;
use crate::render::joined;
use crate::render::lemma_joined_next;
use crate::render::optional_text;
use crate::render::push_decimal;
use crate::render::push_dynamic;
use crate::render::push_optional;
use crate::render::push_quoted;
use crate::render::quoted;
use vstd::prelude::*;
use vstd::string::StringExecFns;

verus! {

/// The text of one import: its name and the name of its namespace.
pub open spec fn import_text(entry: ImportEntry) -> Seq<char> {
    "("@ + quoted(entry.0) + ", "@ + optional_text(entry.1.id()) + ")"@
}

/// The text of the imports, in the order in which they were pushed.
pub open spec fn imports_text(entries: Seq<ImportEntry>) -> Seq<char> {
    "["@ + joined(Seq::new(entries.len(), |i: int| import_text(entries[i]))) + "]"@
}

/// The text of one constant: its name and its value.
pub open spec fn constant_text(entry: ConstantEntry) -> Seq<char> {
    quoted(entry.0) + ": "@ + dynamic_text(entry.1)
}

/// The text of the constants that the cache held, where there is a cache.
pub open spec fn constants_text(constants: Option<Seq<ConstantEntry>>) -> Seq<char> {
    match constants {
        Some(entries) => "Some({"@ + joined(
            Seq::new(entries.len(), |i: int| constant_text(entries[i])),
        ) + "})"@,
        None => "None"@,
    }
}

/// Whether there is an embedded resolver, as text.
pub open spec fn presence_text(present: bool) -> Seq<char> {
    if present {
        "Some(..)"@
    } else {
        "None"@
    }
}

/// The dump of a state whose cache of constants, where it has one, held
/// `constants`.
pub open spec fn dump_text(
    state: GlobalRuntimeStateView,
    constants: Option<Seq<ConstantEntry>>,
) -> Seq<char> {
    "GlobalRuntimeState { imports: "@ + imports_text(state.imports) + ", source: "@
        + optional_text(state.source) + ", num_operations: "@ + decimal(
        state.num_operations as nat,
    ) + ", fn_hash_indexing: ("@ + decimal(state.fn_hash_indexing.0 as nat) + ", "@ + decimal(
        state.fn_hash_indexing.1 as nat,
    ) + "), num_modules_loaded: "@ + decimal(state.num_modules_loaded as nat)
        + ", embedded_module_resolver: "@ + presence_text(state.embedded_module_resolver is Some)
        + ", constants: "@ + constants_text(constants) + " }"@
}

/// Append the text of one import.
fn push_import(out: &mut String, name: &String, module: &SharedModule)
    ensures
        final(out)@ == old(out)@ + import_text((name@, *module)),
{
    out.append("(");
    push_quoted(out, name.as_str());
    out.append(", ");
    push_optional(
        out,
        match module.id_raw() {
            Some(id) => Some(id.as_str()),
            None => None,
        },
    );
    out.append(")");
    proof {
        assert(final(out)@ =~= old(out)@ + import_text((name@, *module)));
    }
}

/// Append the text of the imports.
fn push_imports(out: &mut String, items: &Vec<(&String, &SharedModule)>)
    ensures
        final(out)@ == old(out)@ + imports_text(listed(items@)),
{
    let ghost entries = listed(items@);
    let ghost texts = Seq::new(entries.len(), |i: int| import_text(entries[i]));
    out.append("[");
    let ghost base = out@;
    let mut i: usize = 0;
    while i < items.len()
        invariant
            i <= items@.len(),
            entries == listed(items@),
            texts == Seq::new(entries.len(), |i: int| import_text(entries[i])),
            out@ == base + joined(texts.take(i as int)),
        decreases items@.len() - i,
    {
        if i > 0 {
            out.append(", ");
        }
        push_import(out, items[i].0, items[i].1);
        proof {
            lemma_joined_next(texts, i as int);
            assert(texts[i as int] == import_text((items@[i as int].0@, *items@[i as int].1)));
            assert(out@ =~= base + joined(texts.take(i + 1)));
        }
        i += 1;
    }
    out.append("]");
    proof {
        assert(texts.take(i as int) =~= texts);
        assert(final(out)@ =~= old(out)@ + imports_text(entries));
    }
}

/// Append the text of one constant.
fn push_constant(out: &mut String, name: &String, value: &Dynamic)
    ensures
        final(out)@ == old(out)@ + constant_text((name@, *value)),
{
    push_quoted(out, name.as_str());
    out.append(": ");
    push_dynamic(out, value);
    proof {
        assert(final(out)@ =~= old(out)@ + constant_text((name@, *value)));
    }
}

/// Append the text of the constants that the cache held, where there is a
/// cache.
fn push_constants(out: &mut String, constants: Option<&Vec<(String, Dynamic)>>)
    ensures
        final(out)@ == old(out)@ + constants_text(
            match constants {
                Some(items) => Some(snapshot_entries(items@)),
                None => None,
            },
        ),
{
    match constants {
        Some(items) => {
            let ghost entries = snapshot_entries(items@);
            let ghost texts = Seq::new(entries.len(), |i: int| constant_text(entries[i]));
            out.append("Some({");
            let ghost base = out@;
            let mut i: usize = 0;
            while i < items.len()
                invariant
                    i <= items@.len(),
                    entries == snapshot_entries(items@),
                    texts == Seq::new(entries.len(), |i: int| constant_text(entries[i])),
                    out@ == base + joined(texts.take(i as int)),
                decreases items@.len() - i,
            {
                if i > 0 {
                    out.append(", ");
                }
                push_constant(out, &items[i].0, &items[i].1);
                proof {
                    lemma_joined_next(texts, i as int);
                    assert(texts[i as int] == constant_text((items@[i as int].0@, items@[i as int].1)));
                    assert(out@ =~= base + joined(texts.take(i + 1)));
                }
                i += 1;
            }
            out.append("})");
            proof {
                assert(texts.take(i as int) =~= texts);
                assert(final(out)@ =~= old(out)@ + constants_text(Some(entries)));
            }
        },
        None => {
            out.append("None");
        },
    }
}

impl GlobalRuntimeState {
    /// The dump of this state, given the constants that its cache held,
    /// where it has a cache.
    pub fn render(&self, constants: Option<&Vec<(String, Dynamic)>>) -> (text: String)
        ensures
            text@ == dump_text(
                self@,
                match constants {
                    Some(items) => Some(snapshot_entries(items@)),
                    None => None,
                },
            ),
    {
        let mut out = String::from_str("GlobalRuntimeState { imports: ");
        let imports = self.imports.iter_forward();
        push_imports(&mut out, &imports);
        out.append(", source: ");
        push_optional(
            &mut out,
            match &self.source {
                Some(label) => Some(label.as_str()),
                None => None,
            },
        );
        out.append(", num_operations: ");
        push_decimal(&mut out, self.num_operations);
        out.append(", fn_hash_indexing: (");
        let (getter, setter) = self.fn_hash_indexing.pair();
        push_decimal(&mut out, getter);
        out.append(", ");
        push_decimal(&mut out, setter);
        out.append("), num_modules_loaded: ");
        push_decimal(&mut out, self.num_modules_loaded as u64);
        out.append(", embedded_module_resolver: ");
        if self.embedded_module_resolver.is_some() {
            out.append("Some(..)");
        } else {
            out.append("None");
        }
        out.append(", constants: ");
        push_constants(&mut out, constants);
        out.append(" }");
        out
    }

    /// The dump of this state, with the constants that its cache holds when
    /// it is read.
    pub fn to_debug_string(&self) -> (text: String)
        ensures
            match self@.constants {
                Some(cache) => exists|held: Seq<ConstantEntry>|
                    ascending(held) && text@ == #[trigger] dump_text(self@, Some(held)),
                None => text@ == dump_text(self@, None),
            },
    {
        match &self.constants {
            Some(cache) => {
                let held = cache.snapshot();
                self.render(Some(&held))
            },
            None => self.render(None),
        }
    }
}

} // verus!
