use std::collections::hash_map::DefaultHasher;
use std::hash::{Hash, Hasher};

use naga::arena::{Arena, Handle};
use naga::ast::{
    Block, Dependency, Expression, Function, GlobalDecl, GlobalDeclKind, Ident, IdentExpr,
    Literal, Statement, StatementKind, TranslationUnit, Type,
};
use naga::index_set::FastIndexSet;
use naga::ir::{BinaryOperator, Scalar, ScalarKind};
use naga::memory::{Allocator, Vec};
use naga::number::Number;
use naga::span::Span;

fn hash_of(d: &Dependency) -> u64 {
    let mut h = DefaultHasher::new();
    d.hash(&mut h);
    h.finish()
}

#[test]
fn dependency_equality_ignores_the_location() {
    let a = Dependency { ident: "light", usage: Span::new(10, 15) };
    let b = Dependency { ident: "light", usage: Span::new(90, 95) };
    let c = Dependency { ident: "lights", usage: Span::new(10, 16) };
    assert!(a == b);
    assert!(b == a);
    assert!(a != c);
    assert!(a == a);
}

#[test]
fn dependency_hash_ignores_the_location() {
    let a = Dependency { ident: "main_color", usage: Span::new(0, 10) };
    let b = Dependency { ident: "main_color", usage: Span::new(300, 310) };
    assert_eq!(hash_of(&a), hash_of(&b));
    let mut h = DefaultHasher::new();
    "main_color".hash(&mut h);
    assert_eq!(hash_of(&a), h.finish());
}

#[test]
fn dependencies_are_deduplicated_by_name() {
    let mut deps: FastIndexSet<Dependency> = FastIndexSet::new();
    assert!(deps.insert(Dependency { ident: "a", usage: Span::new(0, 1) }));
    assert!(deps.insert(Dependency { ident: "b", usage: Span::new(2, 3) }));
    assert!(!deps.insert(Dependency { ident: "a", usage: Span::new(4, 5) }));
    assert!(!deps.insert(Dependency { ident: "b", usage: Span::new(6, 7) }));
    assert!(deps.insert(Dependency { ident: "c", usage: Span::new(8, 9) }));
    assert_eq!(deps.len(), 3);
    let first = deps.get_index(0).unwrap();
    assert_eq!(first.ident, "a");
    assert_eq!(first.usage, Span::new(0, 1));
    assert_eq!(deps.get_index(1).unwrap().ident, "b");
    assert_eq!(deps.get_index(2).unwrap().ident, "c");
    assert!(deps.get_index(3).is_none());
    assert!(deps.contains(&Dependency { ident: "c", usage: Span::new(0, 0) }));
    assert!(!deps.contains(&Dependency { ident: "d", usage: Span::new(0, 0) }));
    assert_eq!(deps.get_index_of(&Dependency { ident: "b", usage: Span::new(0, 0) }), Some(1));
    assert_eq!(deps.get_index_of(&Dependency { ident: "z", usage: Span::new(0, 0) }), None);
}

#[test]
fn inserting_twice_is_inserting_once() {
    let mut deps: FastIndexSet<Dependency> = FastIndexSet::default();
    assert!(deps.insert(Dependency { ident: "x", usage: Span::new(1, 2) }));
    assert!(!deps.insert(Dependency { ident: "x", usage: Span::new(1, 2) }));
    assert_eq!(deps.len(), 1);
}

#[test]
fn arena_hands_out_positions_in_order() {
    let mut arena: Arena<u32> = Arena::new();
    let h0 = arena.append(10, Span::new(0, 2));
    let h1 = arena.append(20, Span::new(3, 5));
    assert_eq!(h0.index(), 0);
    assert_eq!(h1.index(), 1);
    assert_eq!(arena.len(), 2);
    assert_eq!(*arena.get(h0), 10);
    assert_eq!(*arena.get(h1), 20);
    assert_eq!(arena.get_span(h1), Span::new(3, 5));
    let copy = h1;
    assert_eq!(copy.index(), h1.index());
    assert_eq!(Handle::<u32>::from_index(7).index(), 7);
}

#[test]
fn list_in_the_arena() {
    let alloc = Allocator::new();
    let mut v: Vec<u8> = Vec::new_in(&alloc);
    assert_eq!(v.len(), 0);
    v.push(3);
    v.push(4);
    assert_eq!(v.len(), 2);
    assert_eq!(*v.get(1), 4);
}

#[test]
fn a_small_translation_unit() {
    let alloc = Allocator::new();
    let mut tu: TranslationUnit = TranslationUnit::default();
    let one = tu.expressions.append(
        Expression::Literal(Literal::Number(Number::AbstractInt(1))),
        Span::new(20, 21),
    );
    let x = tu.expressions.append(Expression::Ident(IdentExpr::Unresolved("x")), Span::new(24, 25));
    let sum = tu.expressions.append(
        Expression::Binary { op: BinaryOperator::Add, left: one, right: x },
        Span::new(20, 25),
    );
    let f32_ty = tu.types.append(
        Type::Scalar(Scalar { kind: ScalarKind::Float, width: 4 }),
        Span::new(10, 13),
    );
    let mut stmts = Vec::new_in(&alloc);
    stmts.push(Statement { kind: StatementKind::Return { value: Some(sum) }, span: Span::new(13, 26) });
    let mut deps = FastIndexSet::new();
    deps.insert(Dependency { ident: "x", usage: Span::new(24, 25) });
    let f = Function {
        entry_point: None,
        name: Ident { name: "f", span: Span::new(3, 4) },
        arguments: Vec::new_in(&alloc),
        result: None,
        body: Block { stmts },
        diagnostic_filter_leaf: None,
    };
    let decl = tu.decls.append(
        GlobalDecl { kind: GlobalDeclKind::Fn(f), dependencies: deps },
        Span::new(0, 27),
    );
    assert_eq!(tu.decls.len(), 1);
    assert_eq!(tu.expressions.len(), 3);
    assert_eq!(f32_ty.index(), 0);
    match &tu.decls.get(decl).kind {
        GlobalDeclKind::Fn(func) => {
            assert_eq!(func.name.name, "f");
            assert_eq!(func.body.stmts.len(), 1);
        }
        _ => panic!("expected a function"),
    }
    match tu.expressions.get(sum) {
        Expression::Binary { left, right, .. } => {
            assert_eq!(left.index(), 0);
            assert_eq!(right.index(), 1);
        }
        _ => panic!("expected a binary expression"),
    }
    assert_eq!(tu.decls.get(decl).dependencies.len(), 1);
    assert!(tu.diagnostic_filter_leaf.is_none());
}
