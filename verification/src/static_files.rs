use vstd::prelude::*;
use vstd::string::{StrSliceExecFns, StringExecFns};
use crate::config::HostContext;
use crate::routes::{build_route, joined_spec, nestable_prefix, prefix_spec, RouteBuildError, RoutePlan};
use crate::web_app::WebApp;

verus! {

/// Static files app: serves the files under `work_dir` beneath the path
/// "/{block_name}"; when `index_html` is set, the one file at `work_dir`
/// joined with it is served there instead. The fields are the work
/// directory, the block name, and the optional index file.
#[derive(Clone)]
pub struct StaticFiles(pub String, pub String, pub Option<String>);

impl StaticFiles {
    /// The plugin symbol this app registers under.
    pub fn symbol() -> (s: &'static str)
        ensures
            s@ == "static_files"@,
    {
        "static_files"
    }

    /// What the plugin does.
    pub fn description() -> (s: &'static str)
        ensures
            s@ == "Starts a static file server host for file directory specified by `work_dir`"@,
    {
        "Starts a static file server host for file directory specified by `work_dir`"
    }

    /// The serving plan: everything is answered under "/{block_name}"; with
    /// an index file configured, the single file at `work_dir` joined with
    /// `index_html` (as paths join: an absolute index, or an empty work
    /// directory, is the file alone) is served there, otherwise the whole
    /// work directory is.
    pub fn route_plan(&self) -> (plan: RoutePlan)
        ensures
            self.2 is None ==> (plan matches RoutePlan::Directory { prefix, dir } && prefix@
                == prefix_spec(self.1@) && dir@ == self.0@),
            self.2 matches Some(index) ==> (plan matches RoutePlan::IndexFile { prefix, file }
                && prefix@ == prefix_spec(self.1@) && file@ == joined_spec(self.0@, index@)),
    {
        let mut prefix = String::from_str("/");
        prefix.append(self.1.as_str());
        match &self.2 {
            Some(index) => {
                let index_absolute = if index.as_str().is_empty() {
                    false
                } else {
                    index.as_str().get_char(0) == '/'
                };
                let file = if index_absolute || self.0.as_str().is_empty() {
                    index.clone()
                } else {
                    let dir_len = self.0.as_str().unicode_len();
                    let ends_with_separator = self.0.as_str().get_char(dir_len - 1) == '/';
                    let mut file = self.0.clone();
                    if !ends_with_separator {
                        file.append("/");
                    }
                    file.append(index.as_str());
                    file
                };
                RoutePlan::IndexFile { prefix, file }
            }
            None => RoutePlan::Directory { prefix, dir: self.0.clone() },
        }
    }
}

impl Default for StaticFiles {
    /// An app with an empty work directory, an empty block name and no
    /// index file.
    fn default() -> (app: Self)
        ensures
            app.0@ == Seq::<char>::empty(),
            app.1@ == Seq::<char>::empty(),
            app.2 is None,
    {
        StaticFiles(String::new(), String::new(), None)
    }
}

impl WebApp for StaticFiles {
    /// Reads `work_dir`, the block name and `index_html` from the context;
    /// without a `work_dir` the app serves the empty path and any
    /// `index_html` is dropped.
    fn create(context: &HostContext) -> (app: Self)
        ensures
            app.1@ == context.block_name@,
            context.work_dir matches Some(work_dir) ==> app.0@ == work_dir@
                && app.2.deep_view() == context.index_html.deep_view(),
            context.work_dir is None ==> app.0@ == Seq::<char>::empty() && app.2 is None,
    {
        match &context.work_dir {
            Some(work_dir) => {
                let index_html = match &context.index_html {
                    Some(index) => Some(index.clone()),
                    None => None,
                };
                StaticFiles(work_dir.clone(), context.block_name.clone(), index_html)
            }
            None => StaticFiles(String::new(), context.block_name.clone(), None),
        }
    }

    /// The poem routing table for this app's serving plan; the app itself
    /// is left unchanged. It succeeds exactly when the prefix made from the
    /// block name is free of ':', '*' and '<', the characters poem's router
    /// refuses in a nest path, and fails with the fixed message otherwise.
    fn routes(&mut self) -> (route: Result<poem::Route, RouteBuildError>)
        ensures
            final(self).0@ == old(self).0@,
            final(self).1@ == old(self).1@,
            final(self).2.deep_view() == old(self).2.deep_view(),
            route is Ok <==> nestable_prefix(prefix_spec(old(self).1@)),
            route matches Err(e) ==> e.0@
                == "invalid nest path: ':', '*' and '<' are not allowed"@,
    {
        let plan = self.route_plan();
        build_route(&plan)
    }
}

} // verus!
