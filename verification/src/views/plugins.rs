//! Installed plugins: name, kind, version and source (read-only).
use vstd::prelude::*;
use crate::text::owned;
use crate::views::{
    clamp_selection, clamped, error_span, error_text, labels, moved_down, moved_up, or_dash,
    or_dash_string, select_down, select_up, selection_ok, styled, Row, Span, Tone,
};

verus! {

pub struct PluginInfo {
    pub name: String,
    pub kind: String,
    pub version: String,
    pub source: Option<String>,
}

pub struct PluginsView {
    pub plugins: Vec<PluginInfo>,
    pub selected: usize,
    pub error: Option<String>,
}

/// The table row of a plugin (rows keep the default colour).
pub open spec fn plugin_row(p: PluginInfo) -> (Seq<Seq<char>>, Option<Tone>) {
    (seq![p.name@, p.kind@, p.version@, or_dash(p.source)], None)
}

impl Default for PluginsView {
    fn default() -> (v: Self)
        ensures
            v.plugins@.len() == 0,
            v.selected == 0,
            v.error is None,
    {
        PluginsView::new()
    }
}

impl PluginsView {
    pub fn new() -> (v: PluginsView)
        ensures
            v.plugins@.len() == 0,
            v.selected == 0,
            v.error is None,
    {
        PluginsView { plugins: Vec::new(), selected: 0, error: None }
    }

    /// Replaces the plugins after a successful refresh and clears the error.
    pub fn set(&mut self, plugins: Vec<PluginInfo>)
        ensures
            final(self).plugins == plugins,
            final(self).selected == clamped(old(self).selected as nat, plugins@.len()),
            selection_ok(final(self).selected as nat, final(self).plugins@.len()),
            final(self).error is None,
    {
        self.selected = clamp_selection(self.selected, plugins.len());
        self.plugins = plugins;
        self.error = None;
    }

    pub fn set_error(&mut self, msg: String)
        ensures
            final(self).error == Some(msg),
            final(self).plugins == old(self).plugins,
            final(self).selected == old(self).selected,
    {
        self.error = Some(msg);
    }

    pub fn up(&mut self)
        ensures
            final(self).selected == moved_up(old(self).selected as nat),
            final(self).plugins == old(self).plugins,
            final(self).error == old(self).error,
    {
        self.selected = select_up(self.selected);
    }

    pub fn down(&mut self)
        ensures
            final(self).selected == moved_down(old(self).selected as nat, old(self).plugins@.len()),
            final(self).plugins == old(self).plugins,
            final(self).error == old(self).error,
    {
        self.selected = select_down(self.selected, self.plugins.len());
    }

    /// What the view shows instead of the table: the error of the last
    /// refresh, or a note that there are no plugins.
    pub fn notice(&self) -> (n: Option<Span>)
        ensures
            match self.error {
                Some(e) => n matches Some(s) && s@ == (error_text(e@), Some(Tone::Bad), false),
                None => if self.plugins@.len() == 0 {
                    n matches Some(s) && s@ == ("no plugins installed"@, Some(Tone::FgDim), false)
                } else {
                    n is None
                },
            },
    {
        match &self.error {
            Some(e) => Some(error_span(e)),
            None => {
                if self.plugins.len() == 0 {
                    Some(styled(owned("no plugins installed"), Tone::FgDim))
                } else {
                    None
                }
            },
        }
    }

    pub fn header(&self) -> (h: Vec<String>)
        ensures
            h.deep_view() == seq!["name"@, "kind"@, "version"@, "source"@],
    {
        let h = labels(&["name", "kind", "version", "source"]);
        assert(h.deep_view() =~= seq!["name"@, "kind"@, "version"@, "source"@]);
        h
    }

    /// The table rows, one per plugin, in order.
    pub fn rows(&self) -> (r: Vec<Row>)
        ensures
            r.deep_view() == self.plugins@.map_values(|w: PluginInfo| plugin_row(w)),
    {
        let mut out: Vec<Row> = Vec::new();
        let mut i: usize = 0;
        while i < self.plugins.len()
            invariant
                i <= self.plugins@.len(),
                out.deep_view() == self.plugins@.take(i as int).map_values(
                    |w: PluginInfo| plugin_row(w),
                ),
            decreases self.plugins@.len() - i,
        {
            let w = &self.plugins[i];
            let mut cells: Vec<String> = Vec::new();
            cells.push(w.name.clone());
            cells.push(w.kind.clone());
            cells.push(w.version.clone());
            cells.push(or_dash_string(&w.source));
            let row = Row { cells, tone: None };
            assert(row.deep_view() =~~= plugin_row(*w));
            let ghost before = out.deep_view();
            out.push(row);
            assert(out.deep_view() =~= before.push(plugin_row(*w)));
            assert(self.plugins@.take(i + 1).map_values(|x: PluginInfo| plugin_row(x))
                =~= self.plugins@.take(i as int).map_values(|x: PluginInfo| plugin_row(x)).push(
                plugin_row(*w),
            ));
            i += 1;
        }
        assert(self.plugins@.take(self.plugins@.len() as int) =~= self.plugins@);
        out
    }
}

} // verus!
