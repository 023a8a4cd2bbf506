//! The configuration surface of the "prevent-default" capability plugin: a
//! set of switches, one per default browser behavior that the embedded view
//! can suppress. The switches mirror, one for one, the flag bits the plugin
//! understands, so a driver can hand the plugin exactly the set recorded here.

use vstd::prelude::*;

verus! {

/// One default browser behavior that can be suppressed in the embedded view.
#[derive(Clone, Copy, Debug, PartialEq, Eq, Structural)]
pub enum Suppression {
    /// Find in page (`Ctrl+F` and related shortcuts).
    Find,
    /// Caret browsing (`F7`).
    CaretBrowsing,
    /// Developer tools (`Ctrl+Shift+I`).
    DevTools,
    /// Downloads (`Ctrl+J`).
    Downloads,
    /// Focus move (`Shift+Tab`).
    FocusMove,
    /// Page reload (`F5`, `Ctrl+R` and related shortcuts).
    Reload,
    /// View page source (`Ctrl+U`).
    ViewSource,
    /// Open file (`Ctrl+O`).
    Open,
    /// Print document (`Ctrl+P`).
    Print,
    /// Context menu (mouse right click).
    ContextMenu,
}

/// A set of requested suppressions: one boolean switch per behavior.
#[derive(Clone, Copy, Debug, PartialEq, Eq, Structural)]
pub struct SuppressionFlags {
    pub find: bool,
    pub caret_browsing: bool,
    pub dev_tools: bool,
    pub downloads: bool,
    pub focus_move: bool,
    pub reload: bool,
    pub view_source: bool,
    pub open: bool,
    pub print: bool,
    pub context_menu: bool,
}

impl SuppressionFlags {
    /// Whether the switch for `s` is on.
    pub open spec fn spec_contains(self, s: Suppression) -> bool {
        match s {
            Suppression::Find => self.find,
            Suppression::CaretBrowsing => self.caret_browsing,
            Suppression::DevTools => self.dev_tools,
            Suppression::Downloads => self.downloads,
            Suppression::FocusMove => self.focus_move,
            Suppression::Reload => self.reload,
            Suppression::ViewSource => self.view_source,
            Suppression::Open => self.open,
            Suppression::Print => self.print,
            Suppression::ContextMenu => self.context_menu,
        }
    }

    /// Every switch is on.
    pub open spec fn spec_is_all(self) -> bool {
        forall|s: Suppression| self.spec_contains(s)
    }

    /// No switch is on.
    pub open spec fn spec_is_empty(self) -> bool {
        forall|s: Suppression| !self.spec_contains(s)
    }

    /// The set with every switch on.
    pub open spec fn spec_all() -> SuppressionFlags {
        SuppressionFlags {
            find: true,
            caret_browsing: true,
            dev_tools: true,
            downloads: true,
            focus_move: true,
            reload: true,
            view_source: true,
            open: true,
            print: true,
            context_menu: true,
        }
    }

    /// The set with no switch on.
    pub open spec fn spec_empty() -> SuppressionFlags {
        SuppressionFlags {
            find: false,
            caret_browsing: false,
            dev_tools: false,
            downloads: false,
            focus_move: false,
            reload: false,
            view_source: false,
            open: false,
            print: false,
            context_menu: false,
        }
    }

    /// The complete suppression set: every default behavior suppressed.
    pub fn all() -> (r: SuppressionFlags)
        ensures
            r == SuppressionFlags::spec_all(),
            r.spec_is_all(),
    {
        let r = SuppressionFlags {
            find: true,
            caret_browsing: true,
            dev_tools: true,
            downloads: true,
            focus_move: true,
            reload: true,
            view_source: true,
            open: true,
            print: true,
            context_menu: true,
        };
        proof {
            assert forall|s: Suppression| r.spec_contains(s) by {
                match s {
                    Suppression::Find => {},
                    Suppression::CaretBrowsing => {},
                    Suppression::DevTools => {},
                    Suppression::Downloads => {},
                    Suppression::FocusMove => {},
                    Suppression::Reload => {},
                    Suppression::ViewSource => {},
                    Suppression::Open => {},
                    Suppression::Print => {},
                    Suppression::ContextMenu => {},
                }
            }
        }
        r
    }

    /// The empty suppression set: every default behavior kept.
    pub fn empty() -> (r: SuppressionFlags)
        ensures
            r == SuppressionFlags::spec_empty(),
            r.spec_is_empty(),
    {
        let r = SuppressionFlags {
            find: false,
            caret_browsing: false,
            dev_tools: false,
            downloads: false,
            focus_move: false,
            reload: false,
            view_source: false,
            open: false,
            print: false,
            context_menu: false,
        };
        proof {
            assert forall|s: Suppression| !r.spec_contains(s) by {
                match s {
                    Suppression::Find => {},
                    Suppression::CaretBrowsing => {},
                    Suppression::DevTools => {},
                    Suppression::Downloads => {},
                    Suppression::FocusMove => {},
                    Suppression::Reload => {},
                    Suppression::ViewSource => {},
                    Suppression::Open => {},
                    Suppression::Print => {},
                    Suppression::ContextMenu => {},
                }
            }
        }
        r
    }

    /// Whether the switch for `s` is on.
    pub fn contains(&self, s: Suppression) -> (r: bool)
        ensures
            r == self.spec_contains(s),
    {
        match s {
            Suppression::Find => self.find,
            Suppression::CaretBrowsing => self.caret_browsing,
            Suppression::DevTools => self.dev_tools,
            Suppression::Downloads => self.downloads,
            Suppression::FocusMove => self.focus_move,
            Suppression::Reload => self.reload,
            Suppression::ViewSource => self.view_source,
            Suppression::Open => self.open,
            Suppression::Print => self.print,
            Suppression::ContextMenu => self.context_menu,
        }
    }

    /// The same set with the switch for `s` turned on.
    pub fn with(self, s: Suppression) -> (r: SuppressionFlags)
        ensures
            r.spec_contains(s),
            forall|t: Suppression| t != s ==> r.spec_contains(t) == self.spec_contains(t),
    {
        let mut r = self;
        match s {
            Suppression::Find => r.find = true,
            Suppression::CaretBrowsing => r.caret_browsing = true,
            Suppression::DevTools => r.dev_tools = true,
            Suppression::Downloads => r.downloads = true,
            Suppression::FocusMove => r.focus_move = true,
            Suppression::Reload => r.reload = true,
            Suppression::ViewSource => r.view_source = true,
            Suppression::Open => r.open = true,
            Suppression::Print => r.print = true,
            Suppression::ContextMenu => r.context_menu = true,
        }
        proof {
            assert forall|t: Suppression| t != s implies r.spec_contains(t)
                == self.spec_contains(t) by {
                match t {
                    Suppression::Find => {},
                    Suppression::CaretBrowsing => {},
                    Suppression::DevTools => {},
                    Suppression::Downloads => {},
                    Suppression::FocusMove => {},
                    Suppression::Reload => {},
                    Suppression::ViewSource => {},
                    Suppression::Open => {},
                    Suppression::Print => {},
                    Suppression::ContextMenu => {},
                }
            }
        }
        r
    }

    /// Whether every switch is on.
    pub fn is_all(&self) -> (r: bool)
        ensures
            r == self.spec_is_all(),
    {
        let r = self.find && self.caret_browsing && self.dev_tools && self.downloads
            && self.focus_move && self.reload && self.view_source && self.open && self.print
            && self.context_menu;
        proof {
            if r {
                assert forall|s: Suppression| self.spec_contains(s) by {
                    match s {
                        Suppression::Find => {},
                        Suppression::CaretBrowsing => {},
                        Suppression::DevTools => {},
                        Suppression::Downloads => {},
                        Suppression::FocusMove => {},
                        Suppression::Reload => {},
                        Suppression::ViewSource => {},
                        Suppression::Open => {},
                        Suppression::Print => {},
                        Suppression::ContextMenu => {},
                    }
                }
            } else {
                assert(!self.spec_is_all()) by {
                    if self.spec_is_all() {
                        assert(self.spec_contains(Suppression::Find));
                        assert(self.spec_contains(Suppression::CaretBrowsing));
                        assert(self.spec_contains(Suppression::DevTools));
                        assert(self.spec_contains(Suppression::Downloads));
                        assert(self.spec_contains(Suppression::FocusMove));
                        assert(self.spec_contains(Suppression::Reload));
                        assert(self.spec_contains(Suppression::ViewSource));
                        assert(self.spec_contains(Suppression::Open));
                        assert(self.spec_contains(Suppression::Print));
                        assert(self.spec_contains(Suppression::ContextMenu));
                    }
                }
            }
        }
        r
    }

    /// The flag word that stands for this set, in the plugin's documented bit
    /// order: a distinct power of two per behavior, summed over the switches
    /// that are on.
    pub open spec fn spec_bits(self) -> u32 {
        ((if self.find { 1int } else { 0 }) + (if self.caret_browsing { 2int } else { 0 }) + (
        if self.dev_tools { 4int } else { 0 }) + (if self.downloads { 8int } else { 0 }) + (
        if self.focus_move { 16int } else { 0 }) + (if self.reload { 32int } else { 0 }) + (
        if self.view_source { 64int } else { 0 }) + (if self.open { 128int } else { 0 }) + (
        if self.print { 256int } else { 0 }) + (if self.context_menu { 512int } else { 0 })) as u32
    }

    /// Encode the set as the plugin's flag word.
    pub fn bits(&self) -> (r: u32)
        ensures
            r == self.spec_bits(),
    {
        let w_find: u32 = if self.find { 1 } else { 0 };
        let w_caret: u32 = if self.caret_browsing { 2 } else { 0 };
        let w_dev: u32 = if self.dev_tools { 4 } else { 0 };
        let w_down: u32 = if self.downloads { 8 } else { 0 };
        let w_focus: u32 = if self.focus_move { 16 } else { 0 };
        let w_reload: u32 = if self.reload { 32 } else { 0 };
        let w_source: u32 = if self.view_source { 64 } else { 0 };
        let w_open: u32 = if self.open { 128 } else { 0 };
        let w_print: u32 = if self.print { 256 } else { 0 };
        let w_menu: u32 = if self.context_menu { 512 } else { 0 };
        w_find + w_caret + w_dev + w_down + w_focus + w_reload + w_source + w_open + w_print
            + w_menu
    }
}

/// The complete set carries every individual suppression: no behavior is left
/// out of `SuppressionFlags::spec_all()`.
pub proof fn lemma_all_contains_every_suppression(s: Suppression)
    ensures
        SuppressionFlags::spec_all().spec_contains(s),
{
    match s {
        Suppression::Find => {},
        Suppression::CaretBrowsing => {},
        Suppression::DevTools => {},
        Suppression::Downloads => {},
        Suppression::FocusMove => {},
        Suppression::Reload => {},
        Suppression::ViewSource => {},
        Suppression::Open => {},
        Suppression::Print => {},
        Suppression::ContextMenu => {},
    }
}

} // verus!
