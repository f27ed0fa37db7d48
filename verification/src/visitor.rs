//! The pass as it runs: a visitor that keeps the open scopes and the
//! gathered template nodes, and the walk that drives it over a tree.
use vstd::prelude::*;
use crate::compress::encode_sequence;
use crate::config::{Config, ConfigView};
use crate::error::PassError;
use crate::node::{TemplateNode, TemplateNodeView};
use crate::pass::{Pass, ATTRIBUTE_NAME};
use crate::pass::{declaration_entered, element_entered, element_stamped, entered, kind_stamped, opens_scope};
use crate::pass::{scope_left, stamped, stamped_all, visited, visited_all};
use crate::pass::{lemma_attributes_count_hosts_all, lemma_failure_stays};
use crate::pass::lemma_flushes_count_hosts_all;
use crate::pass::lemma_scope_balance_all;
use crate::scope::Declaration;
use crate::template::build_template_node;
use crate::tree::{JsxAttr, JsxElement, Syntax, SyntaxKind};
use crate::tree::{attrs_in, hosts_in};

verus! {

/// A walk in progress.
pub struct TransformVisitor {
    config: Config,
    component_stack: Vec<String>,
    ancestry: Vec<TemplateNode>,
    flushed: Ghost<Seq<Seq<TemplateNodeView>>>,
}

impl View for TransformVisitor {
    type V = Pass;

    closed spec fn view(&self) -> Pass {
        Pass {
            stack: self.component_stack.deep_view(),
            ancestry: self.ancestry.deep_view(),
            flushed: self.flushed@,
        }
    }
}

/// A visitor for a walk under the given configuration.
pub fn preprocess(config: Config) -> (visitor: TransformVisitor)
    ensures
        visitor@ == Pass::start(),
        visitor.config() == config@,
{
    TransformVisitor::new(config)
}

/// Runs the pass over the trees of one file and returns them stamped. Where
/// the configuration switches the pass off, the trees come back as they
/// were. Where the pass fails, no tree comes back.
pub fn instrument(program: Vec<Syntax>, config: Config) -> (stamped: Result<Vec<Syntax>, PassError>)
    ensures
        !config@.enabled() ==> stamped == Ok::<Vec<Syntax>, PassError>(program),
        config@.enabled() ==> match visited_all(program@, Pass::start()) {
            Ok(pass) => {
                &&& stamped matches Ok(after)
                &&& stamped_all(program@, after@, Pass::start())
                &&& pass.stack.len() == 0
                &&& pass.flushed.len() == hosts_in(program@)
                &&& attrs_in(after@) == attrs_in(program@) + hosts_in(program@)
            },
            Err(e) => stamped == Err::<Vec<Syntax>, PassError>(e),
        },
{
    match preprocess(config).run(program) {
        Ok((_, trees)) => Ok(trees),
        Err(e) => Err(e),
    }
}

impl TransformVisitor {
    /// The configuration of the walk.
    pub closed spec fn config(&self) -> ConfigView {
        self.config@
    }

    /// A visitor at the start of a walk: no scope is open, nothing is
    /// gathered, nothing was flushed.
    pub fn new(config: Config) -> (visitor: TransformVisitor)
        ensures
            visitor@ == Pass::start(),
            visitor.config() == config@,
    {
        let visitor = TransformVisitor {
            config,
            component_stack: Vec::new(),
            ancestry: Vec::new(),
            flushed: Ghost(Seq::empty()),
        };
        assert(visitor.component_stack.deep_view() =~= Seq::empty());
        assert(visitor.ancestry.deep_view() =~= Seq::empty());
        visitor
    }

    /// Whether the configuration switches the pass on.
    pub fn enabled(&self) -> (enabled: bool)
        ensures
            enabled == self.config().enabled(),
    {
        self.config.enabled()
    }

    /// The number of open scopes.
    pub fn depth(&self) -> (depth: usize)
        ensures
            depth == self@.stack.len(),
    {
        self.component_stack.len()
    }

    /// The number of template nodes gathered since the last flush.
    pub fn pending(&self) -> (pending: usize)
        ensures
            pending == self@.ancestry.len(),
    {
        self.ancestry.len()
    }

    /// Meets an element: its template node joins the gathered sequence, and
    /// a host element is stamped with the sequence, which is then cleared.
    /// Where the pass is switched off, or the step fails, nothing changes.
    pub fn visit_mut_jsx_element(&mut self, element: &mut JsxElement) -> (outcome: Result<(), PassError>)
        ensures
            final(self).config() == old(self).config(),
            !old(self).config().enabled() ==> outcome is Ok,
            !old(self).config().enabled() || outcome is Err ==> *final(element) == *old(element) && final(self)@
                == old(self)@,
            old(self).config().enabled() ==> match element_entered(*old(element), old(self)@) {
                Ok(pass) => outcome is Ok && final(self)@ == pass && element_stamped(
                    *old(element),
                    *final(element),
                    old(self)@,
                ),
                Err(e) => outcome == Err::<(), PassError>(e),
            },
    {
        if !self.config.enabled() {
            return Ok(());
        }
        let node = match build_template_node(element, &self.component_stack) {
            Ok(node) => node,
            Err(e) => { return Err(e); },
        };
        self.ancestry.push(node);
        assert(self.ancestry.deep_view() =~= old(self).ancestry.deep_view().push(node@));
        if element.name.host() {
            let payload = match encode_sequence(&self.ancestry) {
                Ok(payload) => payload,
                Err(e) => {
                    self.ancestry.pop();
                    assert(self.ancestry.deep_view() =~= old(self).ancestry.deep_view());
                    return Err(e);
                },
            };
            element.attrs.push(JsxAttr { name: ATTRIBUTE_NAME.to_owned(), value: payload });
            proof {
                self.flushed@ = self.flushed@.push(self.ancestry.deep_view());
            }
            self.ancestry.clear();
            assert(self.ancestry.deep_view() =~= Seq::empty());
            assert(element.attrs@.drop_last() =~= old(element).attrs@);
        }
        Ok(())
    }

    /// Meets a declaration: opens its scope, if it has one. Returns whether
    /// a scope was opened.
    pub fn enter_declaration(&mut self, declaration: &Declaration) -> (opened: bool)
        ensures
            final(self).config() == old(self).config(),
            final(self)@ == declaration_entered(*declaration, old(self)@),
            opened == (declaration.scope_name() is Some),
    {
        match declaration.name() {
            Some(name) => {
                self.component_stack.push(name);
                assert(self.component_stack.deep_view() =~= old(self).component_stack.deep_view().push(name@));
                true
            },
            None => false,
        }
    }

    /// Closes the innermost scope. Does nothing where no scope is open.
    pub fn leave_scope(&mut self)
        ensures
            final(self).config() == old(self).config(),
            final(self)@ == scope_left(old(self)@),
    {
        let name = self.component_stack.pop();
        assert(name is Some ==> self.component_stack.deep_view() =~= old(self).component_stack.deep_view().drop_last());
    }

    /// Meets a node, before the walk goes into it. Returns whether the node
    /// opened a scope.
    fn enter(&mut self, kind: &mut SyntaxKind) -> (opened: Result<bool, PassError>)
        requires
            old(self).config().enabled(),
        ensures
            final(self).config() == old(self).config(),
            match entered(*old(kind), old(self)@) {
                Ok(pass) => {
                    &&& opened == Ok::<bool, PassError>(opens_scope(*old(kind)))
                    &&& final(self)@ == pass
                    &&& kind_stamped(*old(kind), *final(kind), old(self)@)
                },
                Err(e) => opened == Err::<bool, PassError>(e),
            },
    {
        match kind {
            SyntaxKind::Element(element) => match self.visit_mut_jsx_element(element) {
                Ok(()) => Ok(false),
                Err(e) => Err(e),
            },
            SyntaxKind::Declaration(declaration) => Ok(self.enter_declaration(declaration)),
            SyntaxKind::Other => Ok(false),
        }
    }

    /// Walks over a tree.
    fn walk(&mut self, node: &mut Syntax) -> (outcome: Result<(), PassError>)
        requires
            old(self).config().enabled(),
        ensures
            final(self).config() == old(self).config(),
            match visited(*old(node), old(self)@) {
                Ok(pass) => outcome is Ok && final(self)@ == pass && stamped(*old(node), *final(node), old(self)@),
                Err(e) => outcome == Err::<(), PassError>(e),
            },
        decreases *old(node),
    {
        let opened = match self.enter(&mut node.kind) {
            Ok(opened) => opened,
            Err(e) => { return Err(e); },
        };
        match self.walk_all(&mut node.children) {
            Ok(()) => {},
            Err(e) => { return Err(e); },
        }
        if opened {
            self.leave_scope();
        }
        Ok(())
    }

    /// Walks over a row of trees, one after the other.
    fn walk_all(&mut self, nodes: &mut Vec<Syntax>) -> (outcome: Result<(), PassError>)
        requires
            old(self).config().enabled(),
        ensures
            final(self).config() == old(self).config(),
            match visited_all(old(nodes)@, old(self)@) {
                Ok(pass) => outcome is Ok && final(self)@ == pass && stamped_all(old(nodes)@, final(nodes)@, old(self)@),
                Err(e) => outcome == Err::<(), PassError>(e),
            },
        decreases *old(nodes),
    {
        let ghost befores = nodes@;
        let ghost start = self@;
        let mut i: usize = 0;
        while i < nodes.len()
            invariant
                i <= nodes.len(),
                nodes@.len() == befores.len(),
                befores == old(nodes)@,
                start == old(self)@,
                self.config() == old(self).config(),
                self.config().enabled(),
                forall|k: int| i <= k < nodes.len() ==> nodes@[k] == befores[k],
                visited_all(befores.take(i as int), start) == Ok::<Pass, PassError>(self@),
                stamped_all(befores.take(i as int), nodes@.take(i as int), start),
            decreases nodes.len() - i,
        {
            let ghost row = nodes@;
            assert(befores.take(i + 1).drop_last() =~= befores.take(i as int));
            assert(befores.take(i + 1).last() == befores[i as int]);
            match self.walk(&mut nodes[i]) {
                Ok(()) => {},
                Err(e) => {
                    proof {
                        lemma_failure_stays(befores, i + 1, start);
                    }
                    return Err(e);
                },
            }
            assert(nodes@.take(i + 1).drop_last() =~= row.take(i as int));
            i += 1;
        }
        assert(befores.take(i as int) =~= befores);
        assert(nodes@.take(i as int) =~= nodes@);
        Ok(())
    }

    /// Walks over the trees of a file, one after the other, and returns the
    /// visitor and the trees as the walk leaves them. Where the pass is
    /// switched off both come back as they were. Where the walk succeeds,
    /// the scopes are as they were before, and the trees have gained one
    /// attribute for each of their host elements. Where it fails, neither
    /// comes back.
    pub fn run(self, program: Vec<Syntax>) -> (outcome: Result<(TransformVisitor, Vec<Syntax>), PassError>)
        ensures
            !self.config().enabled() ==> outcome == Ok::<(TransformVisitor, Vec<Syntax>), PassError>(
                (self, program),
            ),
            self.config().enabled() ==> match visited_all(program@, self@) {
                Ok(pass) => {
                    &&& outcome matches Ok((visitor, after))
                    &&& visitor.config() == self.config()
                    &&& visitor@ == pass
                    &&& stamped_all(program@, after@, self@)
                    &&& pass.stack == self@.stack
                    &&& pass.flushed.len() == self@.flushed.len() + hosts_in(program@)
                    &&& attrs_in(after@) == attrs_in(program@) + hosts_in(program@)
                },
                Err(e) => outcome == Err::<(TransformVisitor, Vec<Syntax>), PassError>(e),
            },
    {
        if !self.config.enabled() {
            return Ok((self, program));
        }
        proof {
            if visited_all(program@, self@) is Ok {
                lemma_scope_balance_all(program@, self@);
                lemma_flushes_count_hosts_all(program@, self@);
            }
        }
        let mut visitor = self;
        let mut trees = program;
        match visitor.walk_all(&mut trees) {
            Ok(()) => {
                proof {
                    lemma_attributes_count_hosts_all(program@, trees@, self@);
                }
                Ok((visitor, trees))
            },
            Err(e) => Err(e),
        }
    }
}

} // verus!
