//! Framing of encoded reports into one output document: per-entry comment
//! lines, separators between entries, and the enclosing array for multi-entry
//! JSON output.

use vstd::prelude::*;
use vstd::string::StringExecFns;

verus! {

/// The structured text format the reports are emitted in.
#[derive(Clone, Copy, Debug, PartialEq, Eq)]
pub enum OutputFormat {
    /// TOML documents with comment lines; also the lenient default for any
    /// unrecognized format selector.
    Toml,
    /// Pretty-printed JSON, wrapped in an array when more than one report is
    /// emitted.
    Json,
}

impl OutputFormat {
    /// Selects the format named by an argument; anything but `json` falls
    /// back to TOML rather than failing.
    pub fn from_arg(s: &str) -> (r: OutputFormat)
        ensures
            r == (if s@ == "json"@ {
                OutputFormat::Json
            } else {
                OutputFormat::Toml
            }),
    {
        let a: String = s.to_owned();
        let j: String = "json".to_owned();
        if a == j {
            OutputFormat::Json
        } else {
            OutputFormat::Toml
        }
    }
}

/// The leading comment naming the invocation mode, emitted only for TOML.
pub open spec fn render_header(bundled: bool, fmt: OutputFormat) -> Seq<char> {
    if fmt == OutputFormat::Toml {
        if bundled {
            "# Generated by: ckb list-hashes -b\n"@
        } else {
            "# Generated by: ckb list-hashes\n"@
        }
    } else {
        Seq::<char>::empty()
    }
}

/// Whether the output is wrapped in an enclosing JSON array: only JSON, and
/// only when more than one report is emitted.
pub open spec fn wraps_in_array(fmt: OutputFormat, n: nat) -> bool {
    fmt == OutputFormat::Json && n > 1
}

/// One entry of the output: for TOML a comment line naming the
/// specification, the encoded body, and a blank line before the next entry;
/// for JSON the encoded body and a comma before the next entry.
pub open spec fn rendered_entry(
    fmt: OutputFormat,
    name: Seq<char>,
    body: Seq<char>,
    is_last: bool,
) -> Seq<char> {
    match fmt {
        OutputFormat::Toml => "# Spec: "@ + name + "\n"@ + body + (if is_last {
            Seq::<char>::empty()
        } else {
            "\n\n"@
        }),
        OutputFormat::Json => body + (if is_last {
            Seq::<char>::empty()
        } else {
            ","@
        }),
    }
}

/// The first `n` entries rendered and joined in order.
pub open spec fn rendered_upto(fmt: OutputFormat, entries: Seq<(String, String)>, n: int) -> Seq<
    char,
>
    decreases n,
{
    if n <= 0 {
        Seq::<char>::empty()
    } else {
        rendered_upto(fmt, entries, n - 1) + rendered_entry(
            fmt,
            entries[n - 1].0@,
            entries[n - 1].1@,
            n == entries.len(),
        )
    }
}

/// The whole output document for a run: mode header, optional enclosing
/// array, and every entry in order.
pub open spec fn rendered_output(
    bundled: bool,
    fmt: OutputFormat,
    entries: Seq<(String, String)>,
) -> Seq<char> {
    let open = if wraps_in_array(fmt, entries.len()) {
        "["@
    } else {
        Seq::<char>::empty()
    };
    let close = if wraps_in_array(fmt, entries.len()) {
        "]"@
    } else {
        Seq::<char>::empty()
    };
    render_header(bundled, fmt) + open + rendered_upto(fmt, entries, entries.len() as int) + close
}

/// Joins already-encoded reports, each a `(name, encoded body)` pair, into
/// the one document a run prints.
pub fn render_output(bundled: bool, fmt: OutputFormat, entries: &Vec<(String, String)>) -> (r:
    String)
    ensures
        r@ == rendered_output(bundled, fmt, entries@),
{
    let mut out = String::new();
    match fmt {
        OutputFormat::Toml => {
            if bundled {
                out.append("# Generated by: ckb list-hashes -b\n");
            } else {
                out.append("# Generated by: ckb list-hashes\n");
            }
        },
        OutputFormat::Json => {},
    }
    let wrap = match fmt {
        OutputFormat::Json => entries.len() > 1,
        OutputFormat::Toml => false,
    };
    if wrap {
        out.append("[");
    }
    let ghost head = render_header(bundled, fmt) + (if wraps_in_array(fmt, entries@.len()) {
        "["@
    } else {
        Seq::<char>::empty()
    });
    assert(out@ =~= head + rendered_upto(fmt, entries@, 0));
    let mut i: usize = 0;
    while i < entries.len()
        invariant
            i <= entries@.len(),
            wrap == wraps_in_array(fmt, entries@.len()),
            head == render_header(bundled, fmt) + (if wraps_in_array(fmt, entries@.len()) {
                "["@
            } else {
                Seq::<char>::empty()
            }),
            out@ == head + rendered_upto(fmt, entries@, i as int),
        decreases entries@.len() - i,
    {
        let is_last = i + 1 == entries.len();
        match fmt {
            OutputFormat::Toml => {
                out.append("# Spec: ");
                out.append(entries[i].0.as_str());
                out.append("\n");
                out.append(entries[i].1.as_str());
                if !is_last {
                    out.append("\n\n");
                }
            },
            OutputFormat::Json => {
                out.append(entries[i].1.as_str());
                if !is_last {
                    out.append(",");
                }
            },
        }
        proof {
            assert(out@ =~= head + rendered_upto(fmt, entries@, i + 1));
        }
        i += 1;
    }
    if wrap {
        out.append("]");
    }
    proof {
        assert(out@ =~= rendered_output(bundled, fmt, entries@));
    }
    out
}

} // verus!
