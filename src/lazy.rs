//! Lazy-loading specs for plugins: which version to fetch, and on which
//! events, commands, file types or keys to load a plugin.

use vstd::prelude::*;

use crate::Mode;

verus! {

/// Which revision of a plugin to fetch.
#[derive(Clone, Copy, Debug, PartialEq, Eq)]
pub enum LazyVersion {
    /// A branch.
    Branch(&'static str),
    /// A commit.
    Commit(&'static str),
    /// A tag.
    Tag(&'static str),
    /// A release or semantic version range.
    Semver(&'static str),
}

/// A key that loads a plugin when pressed, with the action it then runs.
/// `A` is the keymap action type of the configuration.
pub struct LazyKey<A> {
    pub key: &'static str,
    pub action: Option<A>,
    pub desc: Option<&'static str>,
    /// The modes the key is mapped in; none means the default mode.
    pub modes: Vec<Mode>,
}

/// When a plugin is loaded.
pub struct LazyLoad<A> {
    pub lazy: bool,
    pub events: Option<&'static [&'static str]>,
    pub cmd: Option<&'static [&'static str]>,
    pub ft: Option<&'static [&'static str]>,
    pub keys: Vec<LazyKey<A>>,
}

impl<A> LazyKey<A> {
    /// A key with no action, description or modes.
    pub fn new(key: &'static str) -> (r: Self)
        ensures
            r.key == key,
            r.action is None,
            r.desc is None,
            r.modes@.len() == 0,
    {
        LazyKey { key, action: None, desc: None, modes: Vec::new() }
    }

    /// This key with action `action`.
    pub fn action(self, action: A) -> (r: Self)
        ensures
            r.key == self.key,
            r.action == Some(action),
            r.desc == self.desc,
            r.modes@ == self.modes@,
    {
        LazyKey { key: self.key, action: Some(action), desc: self.desc, modes: self.modes }
    }

    /// This key, mapped in modes `modes` only.
    pub fn modes(self, modes: &[Mode]) -> (r: Self)
        ensures
            r.key == self.key,
            r.action == self.action,
            r.desc == self.desc,
            r.modes@ == modes@,
    {
        let mut m: Vec<Mode> = Vec::new();
        let mut i: usize = 0;
        while i < modes.len()
            invariant
                i <= modes.len(),
                m@ == modes@.take(i as int),
            decreases modes.len() - i,
        {
            m.push(modes[i]);
            i = i + 1;
            assert(m@ =~= modes@.take(i as int));
        }
        assert(modes@.take(i as int) =~= modes@);
        LazyKey { key: self.key, action: self.action, desc: self.desc, modes: m }
    }
}

impl<A> LazyLoad<A> {
    /// A spec that loads lazily or not, with no trigger yet.
    pub fn new(lazy: bool) -> (r: Self)
        ensures
            r.lazy == lazy,
            r.events is None,
            r.cmd is None,
            r.ft is None,
            r.keys@.len() == 0,
    {
        LazyLoad { lazy, events: None, cmd: None, ft: None, keys: Vec::new() }
    }

    /// This spec, loading on events `events`.
    pub fn events(self, events: &'static [&'static str]) -> (r: Self)
        ensures
            r.events == Some(events),
            r.lazy == self.lazy,
            r.cmd == self.cmd,
            r.ft == self.ft,
            r.keys@ == self.keys@,
    {
        LazyLoad { events: Some(events), ..self }
    }

    /// This spec, loading on commands `cmd`.
    pub fn cmd(self, cmd: &'static [&'static str]) -> (r: Self)
        ensures
            r.cmd == Some(cmd),
            r.lazy == self.lazy,
            r.events == self.events,
            r.ft == self.ft,
            r.keys@ == self.keys@,
    {
        LazyLoad { cmd: Some(cmd), ..self }
    }

    /// This spec, loading on file types `ft`.
    pub fn ft(self, ft: &'static [&'static str]) -> (r: Self)
        ensures
            r.ft == Some(ft),
            r.lazy == self.lazy,
            r.events == self.events,
            r.cmd == self.cmd,
            r.keys@ == self.keys@,
    {
        LazyLoad { ft: Some(ft), ..self }
    }

    /// This spec, also loading on key `key`.
    pub fn add_key(self, key: LazyKey<A>) -> (r: Self)
        ensures
            r.keys@ == self.keys@.push(key),
            r.lazy == self.lazy,
            r.events == self.events,
            r.cmd == self.cmd,
            r.ft == self.ft,
    {
        let mut r = self;
        r.keys.push(key);
        r
    }

    /// This spec, also loading on each of `keys`, in order.
    pub fn add_keys(self, keys: Vec<LazyKey<A>>) -> (r: Self)
        ensures
            r.keys@ == self.keys@ + keys@,
            r.lazy == self.lazy,
            r.events == self.events,
            r.cmd == self.cmd,
            r.ft == self.ft,
    {
        let mut r = self;
        let mut more = keys;
        r.keys.append(&mut more);
        r
    }
}

/// A plugin for the plugin manager to fetch and load. `O` is the type of its
/// options table, `F` that of the callback that configures it once loaded,
/// and `A` the keymap action type of its load keys.
pub struct LazyPlugin<O, F, A> {
    pub url: &'static str,
    pub dependencies: Option<&'static [&'static str]>,
    pub opts: Option<O>,
    pub opts_extend: Option<&'static [&'static str]>,
    pub callback: Option<F>,
    pub main: Option<&'static str>,
    pub build: Option<&'static str>,
    pub version: Option<LazyVersion>,
    pub lazy_load: Option<LazyLoad<A>>,
}

impl<O, F, A> LazyPlugin<O, F, A> {
    /// The plugin at `url`, with nothing else set.
    pub fn new(url: &'static str) -> (r: Self)
        ensures
            r.url == url,
            r.dependencies is None,
            r.opts is None,
            r.opts_extend is None,
            r.callback is None,
            r.main is None,
            r.build is None,
            r.version is None,
            r.lazy_load is None,
    {
        LazyPlugin {
            url,
            dependencies: None,
            opts: None,
            opts_extend: None,
            callback: None,
            main: None,
            build: None,
            version: None,
            lazy_load: None,
        }
    }

    /// This plugin with options `opts`.
    pub fn opts(self, opts: O) -> (r: Self)
        ensures
            r == (LazyPlugin { opts: Some(opts), ..self }),
    {
        LazyPlugin { opts: Some(opts), ..self }
    }

    /// This plugin, loaded together with `dependencies`.
    pub fn depend(self, dependencies: &'static [&'static str]) -> (r: Self)
        ensures
            r == (LazyPlugin { dependencies: Some(dependencies), ..self }),
    {
        LazyPlugin { dependencies: Some(dependencies), ..self }
    }

    /// This plugin, configured by `callback` once loaded.
    pub fn callback(self, callback: F) -> (r: Self)
        ensures
            r == (LazyPlugin { callback: Some(callback), ..self }),
    {
        LazyPlugin { callback: Some(callback), ..self }
    }

    /// This plugin, set up through module `main`.
    pub fn main(self, main: &'static str) -> (r: Self)
        ensures
            r == (LazyPlugin { main: Some(main), ..self }),
    {
        LazyPlugin { main: Some(main), ..self }
    }

    /// This plugin, with command `build` run after each install or update.
    pub fn build(self, build: &'static str) -> (r: Self)
        ensures
            r == (LazyPlugin { build: Some(build), ..self }),
    {
        LazyPlugin { build: Some(build), ..self }
    }

    /// This plugin, pinned to `version`.
    pub fn version(self, version: LazyVersion) -> (r: Self)
        ensures
            r == (LazyPlugin { version: Some(version), ..self }),
    {
        LazyPlugin { version: Some(version), ..self }
    }

    /// This plugin, loaded as `lazy_load` says.
    pub fn lazy_load(self, lazy_load: LazyLoad<A>) -> (r: Self)
        ensures
            r == (LazyPlugin { lazy_load: Some(lazy_load), ..self }),
    {
        LazyPlugin { lazy_load: Some(lazy_load), ..self }
    }

    /// This plugin, with the option lists `opt_extend` merged rather than
    /// replaced.
    pub fn opts_extend(self, opt_extend: &'static [&'static str]) -> (r: Self)
        ensures
            r == (LazyPlugin { opts_extend: Some(opt_extend), ..self }),
    {
        LazyPlugin { opts_extend: Some(opt_extend), ..self }
    }
}

/// The plugins handed to the plugin manager, in order.
pub struct Lazy<O, F, A> {
    pub plugins: Vec<LazyPlugin<O, F, A>>,
}

impl<O, F, A> Lazy<O, F, A> {
    /// No plugins.
    pub fn new() -> (r: Self)
        ensures
            r.plugins@.len() == 0,
    {
        Lazy { plugins: Vec::new() }
    }

    /// Adds a plugin at the end.
    pub fn add_plugin(&mut self, plugin: LazyPlugin<O, F, A>)
        ensures
            final(self).plugins@ == old(self).plugins@.push(plugin),
    {
        self.plugins.push(plugin);
    }

    /// Adds plugins at the end, in order.
    pub fn add_plugins(&mut self, plugins: Vec<LazyPlugin<O, F, A>>)
        ensures
            final(self).plugins@ == old(self).plugins@ + plugins@,
    {
        let mut more = plugins;
        self.plugins.append(&mut more);
    }
}

} // verus!
