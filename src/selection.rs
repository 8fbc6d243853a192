use vstd::prelude::*;

verus! {

/// The clipboard-history tool: lists its store and decodes an id back to its
/// content.
pub const HISTORY_PROGRAM: &'static str = "cliphist";

/// The tool that places its standard input on the system clipboard.
pub const COPY_PROGRAM: &'static str = "wl-copy";

/// Whether `selection` names an entry: present and non-empty.
pub open spec fn is_selection(selection: Option<&str>) -> bool {
    match selection {
        Some(s) => s@.len() > 0,
        None => false,
    }
}

/// Arguments of the history tool that make it print its listing.
pub fn list_args() -> (r: Vec<String>)
    ensures
        r@.map_values(|s: String| s@) == seq!["list"@],
{
    let mut args: Vec<String> = Vec::new();
    args.push("list".to_owned());
    assert(args@.map_values(|s: String| s@) =~= seq!["list"@]);
    args
}

/// Arguments of the history tool that make it print the content stored under
/// `id`; the id is passed as one argument, exactly as given.
pub fn decode_args(id: &str) -> (r: Vec<String>)
    ensures
        r@.map_values(|s: String| s@) == seq!["decode"@, id@],
{
    let mut args: Vec<String> = Vec::new();
    args.push("decode".to_owned());
    args.push(id.to_owned());
    assert(args@.map_values(|s: String| s@) =~= seq!["decode"@, id@]);
    args
}

/// Handles the host's choice of an entry. A missing or empty `selection`
/// fails at once, whatever `apply` would do. Otherwise `apply` runs the
/// decode-and-copy pipeline on that exact id, and its outcome is returned
/// unchanged.
pub fn handle_selection<F: Fn(&str) -> bool>(selection: Option<&str>, apply: F) -> (r: bool)
    requires
        forall|id: &str| id@.len() > 0 ==> #[trigger] apply.requires((id,)),
    ensures
        !is_selection(selection) ==> !r,
        is_selection(selection) ==> apply.ensures((selection.unwrap(),), r),
{
    match selection {
        None => false,
        Some(id) => {
            if id.is_empty() {
                false
            } else {
                apply(id)
            }
        },
    }
}

} // verus!
