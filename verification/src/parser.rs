//! From parsed modules to documentation: the walk over a module's statements
//! and the resolution of re-exports across the module graph.

use vstd::prelude::*;
use vstd::string::StringExecFns;
use crate::ast::{
    Decl, DeclStatement, DeclStatementView, DeclView, ExportSpecifier, ExportSpecifierView,
    ImportDecl, ImportDeclView, ImportSpecifierView, ModuleGraph, ModuleItem, ModuleItemView,
    ParsedModule, ParsedModuleView, ParsedSource, ParsedSourceView, VarDecl, VarDeclaratorView,
};
use crate::class::{class_def_of, get_doc_for_class_decl};
use crate::enums::{enum_def_of, get_doc_for_ts_enum_decl};
use crate::function::get_doc_for_fn_decl;
use crate::interface::{get_doc_for_ts_interface_decl, interface_def_of};
use crate::js_doc::{js_doc_for, js_doc_for_range};
use crate::{find_nodes_by_name, has_name, named};
use crate::namespace::{
    get_doc_for_ts_module, module_elements, module_name, NamespaceDef, NamespaceView,
};
use crate::node::{
    lemma_namespace_def_view, DeclarationKind, DocNode, DocNodeDef, DocNodeDefView, DocNodeView,
    ImportDef, ImportView, Location, LocationView, Reexport, ReexportKind, ReexportKindView,
    ReexportView,
};
use crate::source::{get_location, location_at};
use crate::type_alias::{get_doc_for_ts_type_alias_decl, type_alias_def_of};
use crate::variable::{get_doc_for_var_declarator, variable_def_of};

verus! {

/// How a declaration statement is visible: exported if it says so, else
/// ambient if it is declared so, else private.
pub open spec fn declaration_kind_of(exported: bool, declare: bool) -> DeclarationKind {
    if exported {
        DeclarationKind::Export
    } else if declare {
        DeclarationKind::Declare
    } else {
        DeclarationKind::Private
    }
}

/// A declaration for syntax that starts at `start`: located there, documented
/// by the comment that precedes it.
pub open spec fn node_at(
    src: ParsedSourceView,
    start: int,
    name: Seq<char>,
    declaration_kind: DeclarationKind,
    def: DocNodeDefView,
) -> DocNodeView {
    DocNodeView {
        name,
        location: location_at(src.specifier, src.text, start),
        declaration_kind,
        js_doc: js_doc_for_range(src.text, start),
        def,
    }
}

/// The declaration of one imported name: private, under its local name.
pub open spec fn import_node(src: ParsedSourceView, decl: ImportDeclView) -> spec_fn(
    ImportSpecifierView,
) -> DocNodeView {
    |specifier: ImportSpecifierView|
        node_at(
            src,
            decl.span.start as int,
            match specifier.local {
                Some(local) => local,
                None => specifier.imported,
            },
            DeclarationKind::Private,
            DocNodeDefView::Import(
                ImportView { src: decl.src, imported: specifier.imported, alias: specifier.local },
            ),
        )
}

/// The declaration of one variable of a declaration statement.
pub open spec fn variable_node(src: ParsedSourceView, stmt: DeclStatementView) -> spec_fn(
    VarDeclaratorView,
) -> DocNodeView {
    |declarator: VarDeclaratorView|
        node_at(
            src,
            stmt.span.start as int,
            declarator.name,
            declaration_kind_of(stmt.exported, stmt.declare),
            DocNodeDefView::Variable(variable_def_of(declarator)),
        )
}

/// The declarations that one declaration statement makes: one for each
/// variable of a variable statement, one for any other statement.
pub open spec fn decl_nodes(src: ParsedSourceView, stmt: DeclStatementView) -> Seq<DocNodeView>
    decreases stmt,
{
    let start = stmt.span.start as int;
    let kind = declaration_kind_of(stmt.exported, stmt.declare);
    match stmt.decl {
        DeclView::Function(f) => seq![
            node_at(src, start, f.name, kind, DocNodeDefView::Function(f.function)),
        ],
        DeclView::Variable(v) => v.declarators.map_values(variable_node(src, stmt)),
        DeclView::Class(c) => seq![
            node_at(src, start, c.name, kind, DocNodeDefView::Class(class_def_of(src, c))),
        ],
        DeclView::Interface(i) => seq![
            node_at(src, start, i.name, kind, DocNodeDefView::Interface(interface_def_of(src, i))),
        ],
        DeclView::Enum(e) => seq![
            node_at(src, start, e.name, kind, DocNodeDefView::Enum(enum_def_of(e))),
        ],
        DeclView::TypeAlias(t) => seq![
            node_at(src, start, t.id, kind, DocNodeDefView::TypeAlias(type_alias_def_of(t))),
        ],
        DeclView::Module(m) => seq![
            node_at(
                src,
                start,
                module_name(m),
                kind,
                DocNodeDefView::Namespace(NamespaceView { elements: module_elements(src, m) }),
            ),
        ],
    }
}

/// The declarations that one statement makes. Re-exports and statements that
/// documentation does not cover make none.
pub open spec fn item_nodes(src: ParsedSourceView, item: ModuleItemView) -> Seq<DocNodeView>
    decreases item,
{
    match item {
        ModuleItemView::Decl(stmt) => decl_nodes(src, stmt),
        ModuleItemView::Import(decl) => decl.specifiers.map_values(import_node(src, decl)),
        _ => Seq::empty(),
    }
}

/// The declarations of a list of statements, statement by statement in source
/// order.
pub open spec fn body_nodes(src: ParsedSourceView, items: Seq<ModuleItemView>) -> Seq<DocNodeView>
    decreases items,
{
    if items.len() == 0 {
        Seq::empty()
    } else {
        body_nodes(src, items.drop_last()) + item_nodes(src, items.last())
    }
}

/// Reads the declarations of one `import` statement.
pub fn get_doc_for_import_decl(parsed_source: &ParsedSource, import_decl: &ImportDecl) -> (nodes:
    Vec<DocNode>)
    ensures
        nodes.deep_view() == import_decl.deep_view().specifiers.map_values(
            import_node(parsed_source.deep_view(), import_decl.deep_view()),
        ),
{
    let mut nodes: Vec<DocNode> = Vec::new();
    let mut i: usize = 0;
    while i < import_decl.specifiers.len()
        invariant
            i <= import_decl.specifiers@.len(),
            nodes.deep_view() =~= import_decl.deep_view().specifiers.take(i as int).map_values(
                import_node(parsed_source.deep_view(), import_decl.deep_view()),
            ),
        decreases import_decl.specifiers@.len() - i,
    {
        let specifier = &import_decl.specifiers[i];
        let name = match &specifier.local {
            Some(local) => local.clone(),
            None => specifier.imported.clone(),
        };
        let ghost before = nodes.deep_view();
        let node = doc_node_at(
            parsed_source,
            import_decl.span.start,
            name,
            DeclarationKind::Private,
            DocNodeDef::Import(
                ImportDef {
                    src: import_decl.src.clone(),
                    imported: specifier.imported.clone(),
                    alias: specifier.local.clone(),
                },
            ),
        );
        nodes.push(node);
        assert(nodes.deep_view() =~= before.push(node.deep_view()));
        i += 1;
    }
    assert(import_decl.deep_view().specifiers.take(i as int)
        =~= import_decl.deep_view().specifiers);
    nodes
}

/// Reads the declarations of one variable statement.
pub fn get_doc_for_var_decl(
    parsed_source: &ParsedSource,
    stmt: &DeclStatement,
    var_decl: &VarDecl,
) -> (nodes: Vec<DocNode>)
    ensures
        nodes.deep_view() == var_decl.deep_view().declarators.map_values(
            variable_node(parsed_source.deep_view(), stmt.deep_view()),
        ),
{
    let mut nodes: Vec<DocNode> = Vec::new();
    let mut i: usize = 0;
    while i < var_decl.declarators.len()
        invariant
            i <= var_decl.declarators@.len(),
            nodes.deep_view() =~= var_decl.deep_view().declarators.take(i as int).map_values(
                variable_node(parsed_source.deep_view(), stmt.deep_view()),
            ),
        decreases var_decl.declarators@.len() - i,
    {
        let (name, variable_def) = get_doc_for_var_declarator(&var_decl.declarators[i]);
        let ghost before = nodes.deep_view();
        let node = doc_node_at(
            parsed_source,
            stmt.span.start,
            name,
            declaration_kind(stmt.exported, stmt.declare),
            DocNodeDef::Variable(variable_def),
        );
        nodes.push(node);
        assert(nodes.deep_view() =~= before.push(node.deep_view()));
        i += 1;
    }
    assert(var_decl.deep_view().declarators.take(i as int) =~= var_decl.deep_view().declarators);
    nodes
}

/// How a declaration statement is visible.
pub fn declaration_kind(exported: bool, declare: bool) -> (kind: DeclarationKind)
    ensures
        kind == declaration_kind_of(exported, declare),
{
    if exported {
        DeclarationKind::Export
    } else if declare {
        DeclarationKind::Declare
    } else {
        DeclarationKind::Private
    }
}

/// Makes the declaration for syntax that starts at `start`.
pub fn doc_node_at(
    parsed_source: &ParsedSource,
    start: usize,
    name: String,
    declaration_kind: DeclarationKind,
    def: DocNodeDef,
) -> (node: DocNode)
    ensures
        node.deep_view() == node_at(
            parsed_source.deep_view(),
            start as int,
            name@,
            declaration_kind,
            def.deep_view(),
        ),
{
    DocNode {
        name,
        location: get_location(parsed_source, start),
        declaration_kind,
        js_doc: js_doc_for(parsed_source, start),
        def,
    }
}

/// A list that holds one declaration.
pub fn single_node(node: DocNode) -> (nodes: Vec<DocNode>)
    ensures
        nodes.deep_view() == seq![node.deep_view()],
{
    let mut nodes: Vec<DocNode> = Vec::new();
    nodes.push(node);
    assert(nodes.deep_view() =~= seq![node.deep_view()]);
    nodes
}

/// Reads the declarations that one declaration statement makes.
pub fn get_doc_nodes_for_decl(parsed_source: &ParsedSource, stmt: &DeclStatement) -> (nodes: Vec<
    DocNode,
>)
    ensures
        nodes.deep_view() == decl_nodes(parsed_source.deep_view(), stmt.deep_view()),
    decreases stmt,
{
    let start = stmt.span.start;
    let kind = declaration_kind(stmt.exported, stmt.declare);
    match &stmt.decl {
        Decl::Function(fn_decl) => {
            let (name, function_def) = get_doc_for_fn_decl(fn_decl);
            let def = DocNodeDef::Function(function_def);
            single_node(doc_node_at(parsed_source, start, name, kind, def))
        },
        Decl::Variable(var_decl) => get_doc_for_var_decl(parsed_source, stmt, var_decl),
        Decl::Class(class_decl) => {
            let (name, class_def) = get_doc_for_class_decl(parsed_source, class_decl);
            let def = DocNodeDef::Class(class_def);
            single_node(doc_node_at(parsed_source, start, name, kind, def))
        },
        Decl::Interface(interface_decl) => {
            let (name, interface_def) = get_doc_for_ts_interface_decl(
                parsed_source,
                interface_decl,
            );
            let def = DocNodeDef::Interface(interface_def);
            single_node(doc_node_at(parsed_source, start, name, kind, def))
        },
        Decl::Enum(enum_decl) => {
            let (name, enum_def) = get_doc_for_ts_enum_decl(enum_decl);
            let def = DocNodeDef::Enum(enum_def);
            single_node(doc_node_at(parsed_source, start, name, kind, def))
        },
        Decl::TypeAlias(type_alias_decl) => {
            let (name, type_alias_def) = get_doc_for_ts_type_alias_decl(
                parsed_source,
                type_alias_decl,
            );
            let def = DocNodeDef::TypeAlias(type_alias_def);
            single_node(doc_node_at(parsed_source, start, name, kind, def))
        },
        Decl::Module(module_decl) => {
            let (name, namespace_def) = get_doc_for_ts_module(parsed_source, module_decl);
            proof {
                lemma_namespace_def_view(namespace_def);
            }
            let def = DocNodeDef::Namespace(namespace_def);
            single_node(doc_node_at(parsed_source, start, name, kind, def))
        },
    }
}

/// Walks a list of statements and reads the declarations they make, in source
/// order. Statements that documentation does not cover are passed over.
pub fn get_doc_nodes_for_module_body(
    parsed_source: &ParsedSource,
    module_body: &Vec<ModuleItem>,
) -> (nodes: Vec<DocNode>)
    ensures
        nodes.deep_view() == body_nodes(parsed_source.deep_view(), module_body.deep_view()),
    decreases module_body,
{
    let ghost src = parsed_source.deep_view();
    let ghost items = module_body.deep_view();
    let mut nodes: Vec<DocNode> = Vec::new();
    let mut i: usize = 0;
    assert(nodes.deep_view() =~= Seq::empty());
    assert(items.take(0) =~= Seq::empty());
    while i < module_body.len()
        invariant
            i <= module_body@.len(),
            src == parsed_source.deep_view(),
            items == module_body.deep_view(),
            nodes.deep_view() == body_nodes(src, items.take(i as int)),
        decreases module_body@.len() - i,
    {
        let ghost before = nodes.deep_view();
        let mut made = match &module_body[i] {
            ModuleItem::Decl(stmt) => get_doc_nodes_for_decl(parsed_source, stmt),
            ModuleItem::Import(import_decl) => get_doc_for_import_decl(parsed_source, import_decl),
            _ => {
                let none: Vec<DocNode> = Vec::new();
                assert(none.deep_view() =~= Seq::empty());
                none
            },
        };
        let ghost added = made.deep_view();
        nodes.append(&mut made);
        proof {
            let upto = items.take(i + 1);
            assert(nodes.deep_view() =~= before + added);
            assert(upto.drop_last() =~= items.take(i as int));
            assert(upto.last() == module_body@[i as int].deep_view());
            assert(body_nodes(src, upto) == body_nodes(src, upto.drop_last()) + item_nodes(
                src,
                upto.last(),
            ));
        }
        i += 1;
    }
    assert(items.take(i as int) =~= items);
    nodes
}

/// The re-export that one name of an `export ... from "src"` statement makes.
pub open spec fn export_specifier_reexport(src: Seq<char>) -> spec_fn(
    ExportSpecifierView,
) -> ReexportView {
    |specifier: ExportSpecifierView|
        match specifier {
            ExportSpecifierView::Named { orig, exported } => ReexportView {
                kind: ReexportKindView::Named(orig, exported),
                src,
            },
            ExportSpecifierView::Namespace { name } => ReexportView {
                kind: ReexportKindView::Namespace(name),
                src,
            },
        }
}

/// The re-exports that one statement makes: one for each name of an
/// `export ... from` statement, one for an `export * from`, none for any
/// other statement.
pub open spec fn item_reexports(item: ModuleItemView) -> Seq<ReexportView> {
    match item {
        ModuleItemView::ExportNamed { src, specifiers } => specifiers.map_values(
            export_specifier_reexport(src),
        ),
        ModuleItemView::ExportAll { src } => seq![
            ReexportView { kind: ReexportKindView::All, src },
        ],
        _ => Seq::empty(),
    }
}

/// The re-exports of a list of statements, in source order.
pub open spec fn body_reexports(items: Seq<ModuleItemView>) -> Seq<ReexportView>
    decreases items.len(),
{
    if items.len() == 0 {
        Seq::empty()
    } else {
        body_reexports(items.drop_last()) + item_reexports(items.last())
    }
}

/// Walks a list of statements and reads the re-exports they make, in source
/// order.
pub fn get_reexports_for_module_body(module_body: &Vec<ModuleItem>) -> (reexports: Vec<Reexport>)
    ensures
        reexports.deep_view() == body_reexports(module_body.deep_view()),
{
    let ghost items = module_body.deep_view();
    let mut reexports: Vec<Reexport> = Vec::new();
    let mut i: usize = 0;
    assert(reexports.deep_view() =~= Seq::empty());
    assert(items.take(0) =~= Seq::empty());
    while i < module_body.len()
        invariant
            i <= module_body@.len(),
            items == module_body.deep_view(),
            reexports.deep_view() == body_reexports(items.take(i as int)),
        decreases module_body@.len() - i,
    {
        let ghost before = reexports.deep_view();
        let ghost upto = items.take(i + 1);
        proof {
            assert(upto.drop_last() =~= items.take(i as int));
            assert(upto.last() == module_body@[i as int].deep_view());
        }
        match &module_body[i] {
            ModuleItem::ExportNamed { src, specifiers } => {
                let mut j: usize = 0;
                while j < specifiers.len()
                    invariant
                        j <= specifiers@.len(),
                        reexports.deep_view() =~= before + specifiers.deep_view().take(
                            j as int,
                        ).map_values(export_specifier_reexport(src@)),
                    decreases specifiers@.len() - j,
                {
                    let ghost so_far = reexports.deep_view();
                    let kind = match &specifiers[j] {
                        ExportSpecifier::Named { orig, exported } => ReexportKind::Named(
                            orig.clone(),
                            exported.clone(),
                        ),
                        ExportSpecifier::Namespace { name } => ReexportKind::Namespace(
                            name.clone(),
                        ),
                    };
                    let reexport = Reexport { kind, src: src.clone() };
                    reexports.push(reexport);
                    assert(reexports.deep_view() =~= so_far.push(reexport.deep_view()));
                    j += 1;
                }
                assert(specifiers.deep_view().take(j as int) =~= specifiers.deep_view());
            },
            ModuleItem::ExportAll { src } => {
                let reexport = Reexport { kind: ReexportKind::All, src: src.clone() };
                reexports.push(reexport);
                assert(reexports.deep_view() =~= before + seq![reexport.deep_view()]);
            },
            _ => {
                assert(reexports.deep_view() =~= before + Seq::empty());
            },
        }
        i += 1;
    }
    assert(items.take(i as int) =~= items);
    reexports
}

/// The position in the graph of the first module loaded under `specifier`.
pub open spec fn module_index(modules: Seq<ParsedModuleView>, specifier: Seq<char>) -> Option<
    int,
>
    decreases modules.len(),
{
    if modules.len() == 0 {
        None
    } else {
        match module_index(modules.drop_last(), specifier) {
            Some(i) => Some(i),
            None => if modules.last().source.specifier == specifier {
                Some(modules.len() - 1)
            } else {
                None
            },
        }
    }
}

/// What `module_index` finds is a module of that name, and the first one.
pub proof fn lemma_module_index(modules: Seq<ParsedModuleView>, specifier: Seq<char>)
    ensures
        match module_index(modules, specifier) {
            Some(i) => {
                &&& 0 <= i < modules.len()
                &&& modules[i].source.specifier == specifier
                &&& forall|j: int| 0 <= j < i ==> modules[j].source.specifier != specifier
            },
            None => forall|j: int|
                0 <= j < modules.len() ==> modules[j].source.specifier != specifier,
        },
    decreases modules.len(),
{
    if modules.len() > 0 {
        let front = modules.drop_last();
        lemma_module_index(front, specifier);
        assert forall|j: int| 0 <= j < front.len() implies front[j] == modules[j] by {}
    }
}

/// Finds the first module of the graph loaded under `specifier`.
pub fn find_module(graph: &ModuleGraph, specifier: &String) -> (found: Option<usize>)
    ensures
        match found {
            Some(i) => i < graph.modules@.len() && module_index(
                graph.modules.deep_view(),
                specifier@,
            ) == Some(i as int),
            None => module_index(graph.modules.deep_view(), specifier@) is None,
        },
{
    let ghost modules = graph.modules.deep_view();
    let mut i: usize = 0;
    while i < graph.modules.len()
        invariant
            i <= graph.modules@.len(),
            modules == graph.modules.deep_view(),
            forall|j: int| 0 <= j < i ==> modules[j].source.specifier != specifier@,
        decreases graph.modules@.len() - i,
    {
        assert(modules[i as int] == graph.modules@[i as int].deep_view());
        if graph.modules[i].source.specifier == *specifier {
            proof {
                lemma_module_index(modules, specifier@);
            }
            return Some(i);
        }
        i += 1;
    }
    proof {
        lemma_module_index(modules, specifier@);
    }
    None
}

/// The number of modules not yet marked as visited.
pub open spec fn unmarked(marks: Seq<bool>) -> nat
    decreases marks.len(),
{
    if marks.len() == 0 {
        0
    } else {
        unmarked(marks.drop_last()) + if marks.last() {
            0nat
        } else {
            1nat
        }
    }
}

/// Marking an unmarked module leaves one unmarked module fewer.
pub proof fn lemma_unmarked_update(marks: Seq<bool>, i: int)
    requires
        0 <= i < marks.len(),
        !marks[i],
    ensures
        unmarked(marks.update(i, true)) + 1 == unmarked(marks),
    decreases marks.len(),
{
    let updated = marks.update(i, true);
    if i == marks.len() - 1 {
        assert(updated.drop_last() =~= marks.drop_last());
    } else {
        lemma_unmarked_update(marks.drop_last(), i);
        assert(updated.drop_last() =~= marks.drop_last().update(i, true));
    }
}

/// `after` keeps every mark of `before`.
pub open spec fn keeps_marks(before: Seq<bool>, after: Seq<bool>) -> bool {
    &&& after.len() == before.len()
    &&& forall|i: int| 0 <= i < before.len() && before[i] ==> after[i]
}

/// Where every mark is kept, no more modules are unmarked than before.
pub proof fn lemma_unmarked_monotone(before: Seq<bool>, after: Seq<bool>)
    requires
        keeps_marks(before, after),
    ensures
        unmarked(after) <= unmarked(before),
    decreases before.len(),
{
    if before.len() > 0 {
        lemma_unmarked_monotone(before.drop_last(), after.drop_last());
    }
}

/// A declaration under another name; under its own where no name is given.
pub open spec fn renamed(alias: Option<Seq<char>>) -> spec_fn(DocNodeView) -> DocNodeView {
    |n: DocNodeView|
        match alias {
            Some(name) => DocNodeView { name, ..n },
            None => n,
        }
}

/// The test "is not an import".
pub open spec fn is_genuine() -> spec_fn(DocNodeView) -> bool {
    |n: DocNodeView| !n.is_import()
}

/// The declarations of `nodes` that are not imports, in order.
pub open spec fn without_imports(nodes: Seq<DocNodeView>) -> Seq<DocNodeView> {
    nodes.filter(is_genuine())
}

/// The namespace that `export * as name from "src"` makes of the declarations
/// of module `src`: exported, undocumented, located at the start of that
/// module.
pub open spec fn namespace_of(
    name: Seq<char>,
    src: Seq<char>,
    nodes: Seq<DocNodeView>,
) -> DocNodeView {
    DocNodeView {
        name,
        location: LocationView { filename: src, line: 1, col: 0 },
        declaration_kind: DeclarationKind::Export,
        js_doc: None,
        def: DocNodeDefView::Namespace(NamespaceView { elements: nodes }),
    }
}

/// What a re-export passes on of the declarations `nodes` collected from its
/// source module.
///
/// A named re-export passes on the declarations of that name, under the alias
/// if it gives one; none if the module has no declaration of that name. A
/// re-export of everything passes on all but imports. A namespace re-export
/// passes on one namespace that holds them all.
pub open spec fn apply_reexport(edge: ReexportView, nodes: Seq<DocNodeView>) -> Seq<DocNodeView> {
    match edge.kind {
        ReexportKindView::Named(name, alias) => named(nodes, name).map_values(renamed(alias)),
        ReexportKindView::All => without_imports(nodes),
        ReexportKindView::Namespace(name) => seq![namespace_of(name, edge.src, nodes)],
    }
}

/// The outcome of collecting from a module: the declarations, and the marks
/// of the modules visited so far.
pub ghost struct Collected {
    pub nodes: Seq<DocNodeView>,
    pub marks: Seq<bool>,
}

/// Collects the declarations of the module `specifier` and of what it
/// re-exports, given the marks of the modules already visited.
///
/// A module that is already marked, or that the graph does not hold, gives
/// nothing. Otherwise the module is marked first; its own declarations come
/// first, in source order, then what each of its re-exports passes on, in the
/// order of the re-exports.
pub open spec fn collect(
    modules: Seq<ParsedModuleView>,
    specifier: Seq<char>,
    marks: Seq<bool>,
) -> Collected
    decreases unmarked(marks), 0nat,
    via collect_decreases
{
    match module_index(modules, specifier) {
        Some(i) => if 0 <= i < marks.len() && !marks[i] {
            let module = modules[i];
            let below = collect_reexports(
                modules,
                body_reexports(module.body),
                marks.update(i, true),
            );
            Collected {
                nodes: body_nodes(module.source, module.body) + below.nodes,
                marks: below.marks,
            }
        } else {
            Collected { nodes: Seq::empty(), marks }
        },
        None => Collected { nodes: Seq::empty(), marks },
    }
}

/// Follows the re-exports `edges` in order, each with the marks that the one
/// before it left.
///
/// Collecting never clears a mark, so the test on the number of unmarked
/// modules always holds (`lemma_collect_reexports_step` states the step
/// without it); it is written out because it is what shows that the walk
/// ends.
pub open spec fn collect_reexports(
    modules: Seq<ParsedModuleView>,
    edges: Seq<ReexportView>,
    marks: Seq<bool>,
) -> Collected
    decreases unmarked(marks), edges.len() + 1,
{
    if edges.len() == 0 {
        Collected { nodes: Seq::empty(), marks }
    } else {
        let first = collect(modules, edges[0].src, marks);
        if unmarked(first.marks) <= unmarked(marks) {
            let rest = collect_reexports(modules, edges.skip(1), first.marks);
            Collected {
                nodes: apply_reexport(edges[0], first.nodes) + rest.nodes,
                marks: rest.marks,
            }
        } else {
            Collected { nodes: Seq::empty(), marks }
        }
    }
}

#[via_fn]
proof fn collect_decreases(modules: Seq<ParsedModuleView>, specifier: Seq<char>, marks: Seq<bool>) {
    match module_index(modules, specifier) {
        Some(i) => {
            if 0 <= i < marks.len() && !marks[i] {
                lemma_unmarked_update(marks, i);
            }
        },
        None => {},
    }
}

/// No module visited: one unset mark for each module of the graph.
pub open spec fn no_marks(modules: Seq<ParsedModuleView>) -> Seq<bool> {
    Seq::new(modules.len(), |i: int| false)
}

/// The documentation of the module `root` with its re-exports resolved.
///
/// The root's own declarations come first, in source order and without its
/// imports; then what each of its re-exports passes on, in the order of the
/// re-exports. A root that the graph does not hold gives nothing.
pub open spec fn resolve(modules: Seq<ParsedModuleView>, root: Seq<char>) -> Seq<DocNodeView> {
    match module_index(modules, root) {
        Some(i) => {
            let module = modules[i];
            without_imports(body_nodes(module.source, module.body)) + collect_reexports(
                modules,
                body_reexports(module.body),
                no_marks(modules).update(i, true),
            ).nodes
        },
        None => Seq::empty(),
    }
}

/// Collecting never clears a mark.
pub proof fn lemma_collect_keeps_marks(
    modules: Seq<ParsedModuleView>,
    specifier: Seq<char>,
    marks: Seq<bool>,
)
    ensures
        keeps_marks(marks, collect(modules, specifier, marks).marks),
    decreases unmarked(marks), 0nat,
{
    match module_index(modules, specifier) {
        Some(i) => {
            if 0 <= i < marks.len() && !marks[i] {
                lemma_unmarked_update(marks, i);
                lemma_collect_reexports_keeps_marks(
                    modules,
                    body_reexports(modules[i].body),
                    marks.update(i, true),
                );
            }
        },
        None => {},
    }
}

/// Following re-exports never clears a mark.
pub proof fn lemma_collect_reexports_keeps_marks(
    modules: Seq<ParsedModuleView>,
    edges: Seq<ReexportView>,
    marks: Seq<bool>,
)
    ensures
        keeps_marks(marks, collect_reexports(modules, edges, marks).marks),
    decreases unmarked(marks), edges.len() + 1,
{
    if edges.len() > 0 {
        let first = collect(modules, edges[0].src, marks);
        lemma_collect_keeps_marks(modules, edges[0].src, marks);
        lemma_unmarked_monotone(marks, first.marks);
        lemma_collect_reexports_keeps_marks(modules, edges.skip(1), first.marks);
    }
}

/// Following re-exports takes the first, then the others with the marks that
/// the first left: the step of [`collect_reexports`], as it always is.
pub proof fn lemma_collect_reexports_step(
    modules: Seq<ParsedModuleView>,
    edges: Seq<ReexportView>,
    marks: Seq<bool>,
)
    requires
        edges.len() > 0,
    ensures
        ({
            let first = collect(modules, edges[0].src, marks);
            let rest = collect_reexports(modules, edges.skip(1), first.marks);
            collect_reexports(modules, edges, marks) == Collected {
                nodes: apply_reexport(edges[0], first.nodes) + rest.nodes,
                marks: rest.marks,
            }
        }),
{
    let first = collect(modules, edges[0].src, marks);
    lemma_collect_keeps_marks(modules, edges[0].src, marks);
    lemma_unmarked_monotone(marks, first.marks);
}

/// Walks a module: the declarations its statements make and the re-exports
/// among them, each in source order.
pub fn walk(parsed_module: &ParsedModule) -> (r: (Vec<DocNode>, Vec<Reexport>))
    ensures
        r.0.deep_view() == body_nodes(
            parsed_module.deep_view().source,
            parsed_module.deep_view().body,
        ),
        r.1.deep_view() == body_reexports(parsed_module.deep_view().body),
{
    (
        get_doc_nodes_for_module_body(&parsed_module.source, &parsed_module.body),
        get_reexports_for_module_body(&parsed_module.body),
    )
}

/// Keeps the declarations that are not imports, in order.
pub fn remove_imports(doc_nodes: Vec<DocNode>) -> (kept: Vec<DocNode>)
    ensures
        kept.deep_view() == without_imports(doc_nodes.deep_view()),
{
    let mut kept: Vec<DocNode> = Vec::new();
    let ghost all = doc_nodes.deep_view();
    assert(all.take(0) =~= Seq::empty());
    for node in it: doc_nodes
        invariant
            it.seq().len() == all.len(),
            forall|j: int| 0 <= j < all.len() ==> it.seq()[j].deep_view() == all[j],
            kept.deep_view() == without_imports(all.take(it.index() as int)),
    {
        proof {
            let k = it.index() as int;
            assert(all.take(k + 1) =~= all.take(k).push(all[k]));
            all.take(k).lemma_filter_push(all[k], is_genuine());
        }
        let is_import = match &node.def {
            DocNodeDef::Import(_) => true,
            _ => false,
        };
        if !is_import {
            let ghost before = kept.deep_view();
            kept.push(node);
            assert(kept.deep_view() =~= before.push(node.deep_view()));
        }
    }
    assert(all.take(all.len() as int) =~= all);
    kept
}

/// Gives each declaration the name `alias`, where one is given.
pub fn rename_nodes(doc_nodes: Vec<DocNode>, alias: &Option<String>) -> (out: Vec<DocNode>)
    ensures
        out.deep_view() == doc_nodes.deep_view().map_values(renamed(alias.deep_view())),
{
    let mut out: Vec<DocNode> = Vec::new();
    let ghost all = doc_nodes.deep_view();
    for node in it: doc_nodes
        invariant
            it.seq().len() == all.len(),
            forall|j: int| 0 <= j < all.len() ==> it.seq()[j].deep_view() == all[j],
            out.deep_view() =~= all.take(it.index() as int).map_values(
                renamed(alias.deep_view()),
            ),
    {
        let ghost before = out.deep_view();
        let renamed_node = match alias {
            Some(name) => DocNode {
                name: name.clone(),
                location: node.location,
                declaration_kind: node.declaration_kind,
                js_doc: node.js_doc,
                def: node.def,
            },
            None => node,
        };
        out.push(renamed_node);
        assert(out.deep_view() =~= before.push(renamed_node.deep_view()));
    }
    assert(all.take(all.len() as int) =~= all);
    out
}

/// Passes the declarations collected from a re-export's source module through
/// the re-export.
pub fn reexported_nodes(reexport: &Reexport, doc_nodes: Vec<DocNode>) -> (out: Vec<DocNode>)
    ensures
        out.deep_view() == apply_reexport(reexport.deep_view(), doc_nodes.deep_view()),
{
    match &reexport.kind {
        ReexportKind::Named(name, alias) => {
            let found = find_nodes_by_name(doc_nodes, name.clone());
            rename_nodes(found, alias)
        },
        ReexportKind::All => remove_imports(doc_nodes),
        ReexportKind::Namespace(name) => {
            let ns_def = NamespaceDef { elements: doc_nodes };
            proof {
                lemma_namespace_def_view(ns_def);
            }
            let node = DocNode {
                name: name.clone(),
                location: Location { filename: reexport.src.clone(), line: 1, col: 0 },
                declaration_kind: DeclarationKind::Export,
                js_doc: None,
                def: DocNodeDef::Namespace(ns_def),
            };
            single_node(node)
        },
    }
}

/// Follows the given re-exports in order and appends what each passes on.
fn follow_reexports(
    graph: &ModuleGraph,
    reexports: &Vec<Reexport>,
    visited: &mut Vec<bool>,
) -> (nodes: Vec<DocNode>)
    requires
        old(visited)@.len() == graph.modules@.len(),
    ensures
        nodes.deep_view() == collect_reexports(
            graph.modules.deep_view(),
            reexports.deep_view(),
            old(visited)@,
        ).nodes,
        final(visited)@ == collect_reexports(
            graph.modules.deep_view(),
            reexports.deep_view(),
            old(visited)@,
        ).marks,
        keeps_marks(old(visited)@, final(visited)@),
    decreases unmarked(old(visited)@), reexports@.len() + 1,
{
    let ghost modules = graph.modules.deep_view();
    let ghost edges = reexports.deep_view();
    let ghost start = visited@;
    let ghost total = collect_reexports(modules, edges, start);
    let mut nodes: Vec<DocNode> = Vec::new();
    let mut k: usize = 0;
    assert(edges.skip(0) =~= edges);
    assert(nodes.deep_view() =~= Seq::empty());
    while k < reexports.len()
        invariant
            k <= reexports@.len(),
            modules == graph.modules.deep_view(),
            edges == reexports.deep_view(),
            edges.len() == reexports@.len(),
            visited@.len() == modules.len(),
            start == old(visited)@,
            total == collect_reexports(modules, edges, start),
            keeps_marks(start, visited@),
            total.nodes == nodes.deep_view() + collect_reexports(
                modules,
                edges.skip(k as int),
                visited@,
            ).nodes,
            total.marks == collect_reexports(modules, edges.skip(k as int), visited@).marks,
        decreases reexports@.len() - k,
    {
        let reexport = &reexports[k];
        let ghost before = nodes.deep_view();
        let ghost marks = visited@;
        let ghost rest = edges.skip(k as int);
        proof {
            lemma_unmarked_monotone(start, marks);
            assert(rest[0] == reexport.deep_view());
            assert(rest.skip(1) =~= edges.skip(k + 1));
        }
        let collected = collect_module(graph, &reexport.src, visited);
        proof {
            lemma_unmarked_monotone(marks, visited@);
        }
        let mut passed = reexported_nodes(reexport, collected);
        let ghost added = passed.deep_view();
        nodes.append(&mut passed);
        proof {
            assert(nodes.deep_view() =~= before + added);
            let tail = collect_reexports(modules, edges.skip(k + 1), visited@).nodes;
            assert(before + (added + tail) =~= (before + added) + tail);
        }
        k += 1;
    }
    proof {
        assert(edges.skip(k as int).len() == 0);
        assert(total.nodes =~= nodes.deep_view());
    }
    nodes
}

/// Collects the declarations of one module and of what it re-exports, unless
/// the module was visited before or the graph does not hold it.
fn collect_module(graph: &ModuleGraph, specifier: &String, visited: &mut Vec<bool>) -> (nodes: Vec<
    DocNode,
>)
    requires
        old(visited)@.len() == graph.modules@.len(),
    ensures
        nodes.deep_view() == collect(graph.modules.deep_view(), specifier@, old(visited)@).nodes,
        final(visited)@ == collect(graph.modules.deep_view(), specifier@, old(visited)@).marks,
        keeps_marks(old(visited)@, final(visited)@),
    decreases unmarked(old(visited)@), 0nat,
{
    match find_module(graph, specifier) {
        Some(i) => {
            if visited[i] {
                let none: Vec<DocNode> = Vec::new();
                assert(none.deep_view() =~= Seq::empty());
                return none;
            }
            proof {
                lemma_unmarked_update(visited@, i as int);
            }
            visited.set(i, true);
            let (mut nodes, reexports) = walk(&graph.modules[i]);
            let ghost own = nodes.deep_view();
            let mut below = follow_reexports(graph, &reexports, visited);
            let ghost added = below.deep_view();
            nodes.append(&mut below);
            assert(nodes.deep_view() =~= own + added);
            nodes
        },
        None => {
            let none: Vec<DocNode> = Vec::new();
            assert(none.deep_view() =~= Seq::empty());
            none
        },
    }
}

/// One unset mark for each module of the graph.
fn fresh_marks(graph: &ModuleGraph) -> (visited: Vec<bool>)
    ensures
        visited@ == no_marks(graph.modules.deep_view()),
{
    let mut visited: Vec<bool> = Vec::new();
    let mut i: usize = 0;
    while i < graph.modules.len()
        invariant
            i <= graph.modules@.len(),
            visited@.len() == i,
            forall|j: int| 0 <= j < i ==> !visited@[j],
        decreases graph.modules@.len() - i,
    {
        visited.push(false);
        i += 1;
    }
    assert(visited@ =~= no_marks(graph.modules.deep_view()));
    visited
}

/// Reads documentation out of a graph of parsed modules.
pub struct DocParser {
    pub graph: ModuleGraph,
}

impl DocParser {
    /// A parser over the given graph.
    pub fn new(graph: ModuleGraph) -> (parser: DocParser)
        ensures
            parser.graph == graph,
    {
        DocParser { graph }
    }

    /// The documentation of the module `root` with its re-exports resolved:
    /// the root's own declarations without its imports, then what its
    /// re-exports pass on. Each module of the graph is read at most once, so
    /// cycles among re-exports end.
    pub fn parse_with_reexports(&self, root: &str) -> (nodes: Vec<DocNode>)
        ensures
            nodes.deep_view() == resolve(self.graph.deep_view().modules, root@),
    {
        let root = String::from_str(root);
        match find_module(&self.graph, &root) {
            Some(i) => {
                let mut visited = fresh_marks(&self.graph);
                visited.set(i, true);
                let (own, reexports) = walk(&self.graph.modules[i]);
                let mut nodes = remove_imports(own);
                let ghost kept = nodes.deep_view();
                let mut below = follow_reexports(&self.graph, &reexports, &mut visited);
                let ghost added = below.deep_view();
                nodes.append(&mut below);
                assert(nodes.deep_view() =~= kept + added);
                nodes
            },
            None => {
                let none: Vec<DocNode> = Vec::new();
                assert(none.deep_view() =~= Seq::empty());
                none
            },
        }
    }
}

/// For a root module that makes no re-export, the resolved documentation is
/// exactly what walking the module gives, in the same order, without the
/// module's imports.
pub proof fn lemma_resolve_without_reexports(modules: Seq<ParsedModuleView>, root: Seq<char>)
    requires
        module_index(modules, root) is Some,
        body_reexports(modules[module_index(modules, root)->0].body).len() == 0,
    ensures
        resolve(modules, root) == without_imports(
            body_nodes(
                modules[module_index(modules, root)->0].source,
                modules[module_index(modules, root)->0].body,
            ),
        ),
{
    let module = modules[module_index(modules, root)->0];
    assert(without_imports(body_nodes(module.source, module.body)) + Seq::<DocNodeView>::empty()
        =~= without_imports(body_nodes(module.source, module.body)));
}

/// Where module `a` re-exports everything from module `b` and nothing else,
/// and `b` re-exports everything from `a` and nothing else, resolving `a`
/// gives the declarations of `a` that are not imports, followed by those of
/// `b`: each of them once.
pub proof fn lemma_resolve_two_module_cycle(
    modules: Seq<ParsedModuleView>,
    a: Seq<char>,
    b: Seq<char>,
)
    requires
        module_index(modules, a) is Some,
        module_index(modules, b) is Some,
        module_index(modules, a) != module_index(modules, b),
        body_reexports(modules[module_index(modules, a)->0].body) == seq![
            ReexportView { kind: ReexportKindView::All, src: b },
        ],
        body_reexports(modules[module_index(modules, b)->0].body) == seq![
            ReexportView { kind: ReexportKindView::All, src: a },
        ],
    ensures
        resolve(modules, a) == without_imports(
            body_nodes(
                modules[module_index(modules, a)->0].source,
                modules[module_index(modules, a)->0].body,
            ),
        ) + without_imports(
            body_nodes(
                modules[module_index(modules, b)->0].source,
                modules[module_index(modules, b)->0].body,
            ),
        ),
{
    let i = module_index(modules, a)->0;
    let j = module_index(modules, b)->0;
    lemma_module_index(modules, a);
    lemma_module_index(modules, b);
    let own_a = body_nodes(modules[i].source, modules[i].body);
    let own_b = body_nodes(modules[j].source, modules[j].body);
    let to_b = ReexportView { kind: ReexportKindView::All, src: b };
    let to_a = ReexportView { kind: ReexportKindView::All, src: a };
    let none = Seq::<DocNodeView>::empty();
    let marks_a = no_marks(modules).update(i, true);
    let marks_ab = marks_a.update(j, true);

    // Back at `a`, which is marked: nothing is collected.
    let again = collect(modules, a, marks_ab);
    assert(again == Collected { nodes: none, marks: marks_ab });
    assert(seq![to_a].skip(1) =~= Seq::<ReexportView>::empty());
    let after_again = collect_reexports(modules, Seq::<ReexportView>::empty(), marks_ab);
    assert(after_again == Collected { nodes: none, marks: marks_ab });
    let from_b_edges = collect_reexports(modules, seq![to_a], marks_ab);
    assert(without_imports(none) =~= none) by {
        reveal(Seq::filter);
    }
    assert(from_b_edges.nodes =~= none);
    assert(from_b_edges.marks == marks_ab);

    // At `b`, which is not marked: its own declarations.
    lemma_unmarked_update(marks_a, j);
    let at_b = collect(modules, b, marks_a);
    assert(at_b.nodes =~= own_b);
    assert(at_b.marks == marks_ab);

    // From `a`: what the re-export of everything passes on of them.
    assert(seq![to_b].skip(1) =~= Seq::<ReexportView>::empty());
    let after_b = collect_reexports(modules, Seq::<ReexportView>::empty(), marks_ab);
    assert(after_b == Collected { nodes: none, marks: marks_ab });
    let from_a_edges = collect_reexports(modules, seq![to_b], marks_a);
    assert(from_a_edges.nodes =~= without_imports(own_b));
}

/// Following re-exports can be split at any point: the first `k` are
/// followed, then the others with the marks that the first `k` left.
pub proof fn lemma_collect_reexports_split(
    modules: Seq<ParsedModuleView>,
    edges: Seq<ReexportView>,
    marks: Seq<bool>,
    k: int,
)
    requires
        0 <= k <= edges.len(),
    ensures
        ({
            let head = collect_reexports(modules, edges.take(k), marks);
            let tail = collect_reexports(modules, edges.skip(k), head.marks);
            &&& collect_reexports(modules, edges, marks).nodes == head.nodes + tail.nodes
            &&& collect_reexports(modules, edges, marks).marks == tail.marks
        }),
    decreases k,
{
    let whole = collect_reexports(modules, edges, marks);
    if k == 0 {
        assert(edges.take(0) =~= Seq::<ReexportView>::empty());
        assert(edges.skip(0) =~= edges);
        assert(Seq::<DocNodeView>::empty() + whole.nodes =~= whole.nodes);
    } else {
        let first = collect(modules, edges[0].src, marks);
        lemma_collect_keeps_marks(modules, edges[0].src, marks);
        lemma_unmarked_monotone(marks, first.marks);
        let passed = apply_reexport(edges[0], first.nodes);
        lemma_collect_reexports_split(modules, edges.skip(1), first.marks, k - 1);
        assert(edges.take(k)[0] == edges[0]);
        assert(edges.take(k).skip(1) =~= edges.skip(1).take(k - 1));
        assert(edges.skip(1).skip(k - 1) =~= edges.skip(k));
        let head_rest = collect_reexports(modules, edges.skip(1).take(k - 1), first.marks);
        let tail = collect_reexports(modules, edges.skip(k), head_rest.marks);
        assert(passed + (head_rest.nodes + tail.nodes) =~= (passed + head_rest.nodes) + tail.nodes);
    }
}

/// The marks with which the re-export at position `k` of the root module is
/// reached: the root's own mark and those left by the re-exports before it.
pub open spec fn marks_reaching(modules: Seq<ParsedModuleView>, root: Seq<char>, k: int) -> Seq<
    bool,
> {
    let i = module_index(modules, root)->0;
    collect_reexports(
        modules,
        body_reexports(modules[i].body).take(k),
        no_marks(modules).update(i, true),
    ).marks
}

/// The first re-export of the root module is reached with the root's own
/// mark and no other.
pub proof fn lemma_marks_reaching_first(modules: Seq<ParsedModuleView>, root: Seq<char>)
    requires
        module_index(modules, root) is Some,
    ensures
        marks_reaching(modules, root, 0) == no_marks(modules).update(
            module_index(modules, root)->0,
            true,
        ),
{
    let i = module_index(modules, root)->0;
    assert(body_reexports(modules[i].body).take(0) =~= Seq::<ReexportView>::empty());
}

/// A re-export `export { name as alias } from "src"` of the root module, where
/// module `src` declares `name`, puts into the resolved documentation that
/// declaration under the name `alias`, with its location, visibility,
/// documentation and definition unchanged.
///
/// This holds where module `src` has not been visited when the re-export is
/// reached; a module is read once only, so a later re-export of a module
/// already visited passes nothing on.
pub proof fn lemma_named_reexport_renames(
    modules: Seq<ParsedModuleView>,
    root: Seq<char>,
    k: int,
    name: Seq<char>,
    alias: Seq<char>,
    d: int,
)
    requires
        module_index(modules, root) is Some,
        0 <= k < body_reexports(modules[module_index(modules, root)->0].body).len(),
        body_reexports(modules[module_index(modules, root)->0].body)[k].kind
            == ReexportKindView::Named(name, Some(alias)),
        module_index(
            modules,
            body_reexports(modules[module_index(modules, root)->0].body)[k].src,
        ) is Some,
        !marks_reaching(modules, root, k)[module_index(
            modules,
            body_reexports(modules[module_index(modules, root)->0].body)[k].src,
        )->0],
        ({
            let edge = body_reexports(modules[module_index(modules, root)->0].body)[k];
            let source = modules[module_index(modules, edge.src)->0];
            0 <= d < body_nodes(source.source, source.body).len() && body_nodes(
                source.source,
                source.body,
            )[d].name == name
        }),
    ensures
        ({
            let edge = body_reexports(modules[module_index(modules, root)->0].body)[k];
            let source = modules[module_index(modules, edge.src)->0];
            resolve(modules, root).contains(
                DocNodeView { name: alias, ..body_nodes(source.source, source.body)[d] },
            )
        }),
{
    let i = module_index(modules, root)->0;
    let edges = body_reexports(modules[i].body);
    let edge = edges[k];
    let j = module_index(modules, edge.src)->0;
    let own = body_nodes(modules[j].source, modules[j].body);
    let start = no_marks(modules).update(i, true);
    let reached = marks_reaching(modules, root, k);
    lemma_module_index(modules, root);
    lemma_module_index(modules, edge.src);
    lemma_collect_reexports_keeps_marks(modules, edges.take(k), start);
    lemma_collect_reexports_split(modules, edges, start, k);
    let head = collect_reexports(modules, edges.take(k), start);
    let tail = collect_reexports(modules, edges.skip(k), reached);

    // The re-export is the first of the tail, and its module is collected.
    assert(edges.skip(k)[0] == edge);
    let first = collect(modules, edge.src, reached);
    lemma_collect_keeps_marks(modules, edge.src, reached);
    lemma_unmarked_monotone(reached, first.marks);
    lemma_unmarked_update(reached, j);
    let rest = collect_reexports(modules, edges.skip(k).skip(1), first.marks);
    let passed = apply_reexport(edge, first.nodes);
    assert(tail.nodes == passed + rest.nodes);
    assert(first.nodes[d] == own[d]);

    // The declaration is among those of that name, and is renamed.
    let found = named(first.nodes, name);
    first.nodes.lemma_filter_contains(has_name(name), d);
    assert(found.contains(own[d]));
    let at = choose|at: int| 0 <= at < found.len() && found[at] == own[d];
    let target = DocNodeView { name: alias, ..own[d] };
    assert(passed[at] == target);

    let kept = without_imports(body_nodes(modules[i].source, modules[i].body));
    let whole = resolve(modules, root);
    assert(whole == kept + (head.nodes + tail.nodes));
    assert(whole[kept.len() + head.nodes.len() + at] == target);
}

/// Walking a module locates every declaration in the module's own file.
pub proof fn lemma_walk_locates_in_module(src: ParsedSourceView, items: Seq<ModuleItemView>)
    ensures
        forall|i: int|
            0 <= i < body_nodes(src, items).len() ==> (#[trigger] body_nodes(
                src,
                items,
            )[i]).location.filename == src.specifier,
    decreases items.len(),
{
    if items.len() > 0 {
        lemma_walk_locates_in_module(src, items.drop_last());
        let front = body_nodes(src, items.drop_last());
        let made = item_nodes(src, items.last());
        assert forall|k: int| 0 <= k < made.len() implies (#[trigger] made[k]).location.filename
            == src.specifier by {
            match items.last() {
                ModuleItemView::Decl(stmt) => {},
                ModuleItemView::Import(decl) => {},
                _ => {},
            }
        }
        assert forall|i: int| 0 <= i < body_nodes(src, items).len() implies (
        #[trigger] body_nodes(src, items)[i]).location.filename == src.specifier by {
            if i >= front.len() {
                assert(body_nodes(src, items)[i] == made[i - front.len()]);
            } else {
                assert(body_nodes(src, items)[i] == front[i]);
            }
        }
    }
}

/// What a named re-export or a re-export of everything passes on is taken
/// from the declarations collected: each declaration passed on has the
/// location, visibility, documentation and definition of one of them.
pub proof fn lemma_reexport_keeps_declarations(
    edge: ReexportView,
    nodes: Seq<DocNodeView>,
    i: int,
)
    requires
        !(edge.kind is Namespace),
        0 <= i < apply_reexport(edge, nodes).len(),
    ensures
        exists|j: int|
            0 <= j < nodes.len() && apply_reexport(edge, nodes)[i] == (DocNodeView {
                name: apply_reexport(edge, nodes)[i].name,
                ..#[trigger] nodes[j]
            }),
{
    let passed = apply_reexport(edge, nodes);
    match edge.kind {
        ReexportKindView::Named(name, alias) => {
            let found = named(nodes, name);
            assert(found.contains(found[i]));
            nodes.lemma_filter_contains_rev(has_name(name), found[i]);
            let j = choose|j: int| 0 <= j < nodes.len() && nodes[j] == found[i];
            assert(passed[i] == (DocNodeView { name: passed[i].name, ..nodes[j] }));
        },
        ReexportKindView::All => {
            assert(passed.contains(passed[i]));
            nodes.lemma_filter_contains_rev(is_genuine(), passed[i]);
            let j = choose|j: int| 0 <= j < nodes.len() && nodes[j] == passed[i];
            assert(passed[i] == (DocNodeView { name: passed[i].name, ..nodes[j] }));
        },
        ReexportKindView::Namespace(_) => {},
    }
}

/// A named re-export of a name that is not among the declarations collected
/// passes nothing on.
pub proof fn lemma_reexport_of_missing_name(
    name: Seq<char>,
    alias: Option<Seq<char>>,
    src: Seq<char>,
    nodes: Seq<DocNodeView>,
)
    requires
        forall|j: int| 0 <= j < nodes.len() ==> nodes[j].name != name,
    ensures
        apply_reexport(ReexportView { kind: ReexportKindView::Named(name, alias), src }, nodes)
            == Seq::<DocNodeView>::empty(),
{
    let test = has_name(name);
    assert(nodes.all(|n: DocNodeView| !test(n)));
    nodes.lemma_all_neg_filter_empty(test);
    assert(named(nodes, name).map_values(renamed(alias)) =~= Seq::<DocNodeView>::empty());
}

} // verus!
