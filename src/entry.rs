use vstd::prelude::*;

verus! {

/// Descriptor that identifies the plugin to its host.
pub struct PluginInfo {
    pub name: String,
    pub version: String,
    pub description: String,
    pub author: String,
    pub default_prefix: String,
}

pub const PLUGIN_NAME: &'static str = "Clipboard Manager";
pub const PLUGIN_VERSION: &'static str = "1.0.1";
pub const PLUGIN_DESCRIPTION: &'static str = "A plugin for managing your clipboard";
pub const PLUGIN_AUTHOR: &'static str = "Ri";
pub const PLUGIN_PREFIX: &'static str = "c";

impl PluginInfo {
    /// The plugin's fixed descriptor; every field is a non-empty literal.
    pub fn new() -> (r: PluginInfo)
        ensures
            r.name@ == PLUGIN_NAME@,
            r.version@ == PLUGIN_VERSION@,
            r.description@ == PLUGIN_DESCRIPTION@,
            r.author@ == PLUGIN_AUTHOR@,
            r.default_prefix@ == PLUGIN_PREFIX@,
            r.name@.len() > 0,
            r.version@.len() > 0,
            r.description@.len() > 0,
            r.author@.len() > 0,
            r.default_prefix@.len() > 0,
    {
        proof {
            reveal_strlit("Clipboard Manager");
            reveal_strlit("1.0.1");
            reveal_strlit("A plugin for managing your clipboard");
            reveal_strlit("Ri");
            reveal_strlit("c");
        }
        PluginInfo {
            name: PLUGIN_NAME.to_owned(),
            version: PLUGIN_VERSION.to_owned(),
            description: PLUGIN_DESCRIPTION.to_owned(),
            author: PLUGIN_AUTHOR.to_owned(),
            default_prefix: PLUGIN_PREFIX.to_owned(),
        }
    }
}

/// One selectable item handed to the host.
pub struct Entry {
    /// Text shown to the user.
    pub name: String,
    /// Secondary text.
    pub description: String,
    /// Identifier handed back to the selection handler.
    pub value: String,
    /// Optional icon path.
    pub icon: Option<String>,
    /// Optional glyph.
    pub emoji: Option<String>,
}

/// The mathematical content of an [`Entry`].
pub struct EntryView {
    pub name: Seq<char>,
    pub description: Seq<char>,
    pub value: Seq<char>,
    pub icon: Option<Seq<char>>,
    pub emoji: Option<Seq<char>>,
}

pub open spec fn opt_view(o: Option<String>) -> Option<Seq<char>> {
    match o {
        Some(s) => Some(s@),
        None => None,
    }
}

impl View for Entry {
    type V = EntryView;

    open spec fn view(&self) -> EntryView {
        EntryView {
            name: self.name@,
            description: self.description@,
            value: self.value@,
            icon: opt_view(self.icon),
            emoji: opt_view(self.emoji),
        }
    }
}

/// The entries of one listing, in the order the history tool gave them.
pub struct EntryList {
    pub entries: Vec<Entry>,
    /// Number of entries; always `entries.len()`.
    pub length: usize,
}

impl View for EntryList {
    type V = Seq<EntryView>;

    open spec fn view(&self) -> Seq<EntryView> {
        self.entries@.map_values(|e: Entry| e@)
    }
}

impl EntryList {
    pub open spec fn wf(&self) -> bool {
        self.length == self.entries@.len()
    }

    /// Wraps `entries` as a list, recording its length.
    pub fn from_entries(entries: Vec<Entry>) -> (r: EntryList)
        ensures
            r.wf(),
            r@ == entries@.map_values(|e: Entry| e@),
    {
        let length = entries.len();
        EntryList { entries, length }
    }

    /// Number of entries.
    pub fn len(&self) -> (r: usize)
        requires
            self.wf(),
        ensures
            r == self@.len(),
    {
        self.length
    }
}

} // verus!
