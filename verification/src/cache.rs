use crate::snapshot::{render_text, Info};
use vstd::prelude::*;

verus! {

/// The once-written cell behind the process-wide cached rendering: empty until
/// the first access, thereafter populated and read-only. The computation runs
/// exactly once — a populated cell is handed back unchanged.
pub struct RenderCache {
    pub cached: Option<String>,
}

impl RenderCache {
    /// An empty cache: nothing has been rendered yet.
    pub fn new() -> (r: Self)
        ensures
            r.cached is None,
    {
        RenderCache { cached: None }
    }

    /// The cached rendering of `info`: computed on the first access, and on
    /// every later access the very text stored by the first, with no second
    /// computation and no change to the cell.
    pub fn get_or_render(&mut self, info: &Info) -> (r: String)
        ensures
            final(self).cached == Some(r),
            old(self).cached is Some ==> r == old(self).cached->0 && *final(self) == *old(self),
            old(self).cached is None ==> r@ == render_text(info@),
    {
        match &self.cached {
            Some(text) => text.clone(),
            None => {
                let text = info.render();
                self.cached = Some(text.clone());
                text
            },
        }
    }
}

} // verus!
