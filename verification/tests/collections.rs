use redistribution_span::group::{
    std_Group, std_group2map, std_group2set, std_group2vec, std_group_count, std_group_first,
    std_group_max, std_group_min, std_group_nth, std_group_set_unions, std_group_setref_unions,
    std_group_sum,
};
use redistribution_span::map::{
    std_Map, std_map_contains_key, std_map_empty, std_map_get, std_map_insert, std_map_insert_imm,
    std_map_is_empty, std_map_remove, std_map_singleton, std_map_union,
};
use redistribution_span::misc::{std_deref, std_max, std_min, std_ref_new};
use redistribution_span::option::{option2std, std_Either, std_Option, std_is_none, std_is_some};
use redistribution_span::set::{
    std_Set, std_set2vec, std_set_contains, std_set_empty, std_set_insert, std_set_insert_imm,
    std_set_is_empty, std_set_nth, std_set_singleton, std_set_size, std_set_union, std_set_unions,
};
use redistribution_span::vec::{
    std_Vec, std_vec2set, std_vec_contains, std_vec_empty, std_vec_is_empty, std_vec_len,
    std_vec_nth, std_vec_push, std_vec_push_imm, std_vec_singleton,
};
use std::sync::Arc;

fn set_of(xs: &[u16]) -> std_Set<u16> {
    let mut s = std_Set::new();
    for x in xs {
        s.insert(*x);
    }
    s
}

fn vec_of(xs: &[u32]) -> std_Vec<u32> {
    let mut v = std_Vec::new();
    for x in xs {
        v.push(*x);
    }
    v
}

#[test]
fn vec_push_len_and_nth() {
    let mut v: std_Vec<u32> = std_vec_empty();
    assert!(std_vec_is_empty(&v));
    std_vec_push(&mut v, &4);
    std_vec_push(&mut v, &9);
    assert_eq!(std_vec_len(&v), 2);
    assert!(!std_vec_is_empty(&v));
    assert_eq!(std_vec_nth(&v, &0), std_Option::std_Some { x: 4 });
    assert_eq!(std_vec_nth(&v, &1), std_Option::std_Some { x: 9 });
    assert_eq!(std_vec_nth(&v, &2), std_Option::std_None);
}

#[test]
fn vec_push_imm_leaves_the_original() {
    let v = vec_of(&[1, 2]);
    let w = std_vec_push_imm(&v, &3);
    assert_eq!(v.x, vec![1, 2]);
    assert_eq!(w.x, vec![1, 2, 3]);
    let s = std_vec_singleton(&7u32);
    assert_eq!(s.x, vec![7]);
}

#[test]
fn vec_contains_and_to_set() {
    let v = vec_of(&[3, 1, 3, 2]);
    assert!(std_vec_contains(&v, &3));
    assert!(!std_vec_contains(&v, &5));
    let s = std_vec2set(&v);
    assert_eq!(s.x.iter().cloned().collect::<Vec<u32>>(), vec![1, 2, 3]);
    let with_cap: std_Vec<u32> = std_Vec::with_capacity(10);
    assert_eq!(std_vec_len(&with_cap), 0);
}

#[test]
fn vec_iter_walks_in_order() {
    let v = vec_of(&[5, 6, 7]);
    let mut it = v.iter();
    assert_eq!(it.size_hint(), (3, Some(3)));
    assert_eq!(it.next(), Some(&5));
    assert_eq!(it.next(), Some(&6));
    assert_eq!(it.size_hint(), (1, Some(1)));
    assert_eq!(it.next(), Some(&7));
    assert_eq!(it.next(), None);
    assert_eq!(it.next(), None);
}

#[test]
fn set_insert_size_contains() {
    let mut s: std_Set<u16> = std_set_empty();
    assert!(std_set_is_empty(&s));
    std_set_insert(&mut s, &5);
    std_set_insert(&mut s, &2);
    std_set_insert(&mut s, &5);
    assert_eq!(std_set_size(&s), 2);
    assert!(std_set_contains(&s, &2));
    assert!(!std_set_contains(&s, &3));
    assert!(!std_set_is_empty(&s));
    let t = std_set_insert_imm(&s, &9);
    assert_eq!(std_set_size(&s), 2);
    assert_eq!(std_set_size(&t), 3);
    assert_eq!(std_set_singleton(&4u16), set_of(&[4]));
}

#[test]
fn set_nth_and_to_vec_are_sorted() {
    let s = set_of(&[30, 10, 20]);
    assert_eq!(std_set_nth(&s, &0), std_Option::std_Some { x: 10 });
    assert_eq!(std_set_nth(&s, &2), std_Option::std_Some { x: 30 });
    assert_eq!(std_set_nth(&s, &3), std_Option::std_None);
    assert_eq!(std_set2vec(&s).x, vec![10, 20, 30]);
}

#[test]
fn set_union_and_unions() {
    let a = set_of(&[1, 2]);
    let b = set_of(&[2, 3]);
    assert_eq!(std_set_union(&a, &b), set_of(&[1, 2, 3]));
    let mut all: std_Vec<std_Set<u16>> = std_Vec::new();
    all.push(a.clone());
    all.push(b.clone());
    all.push(set_of(&[9]));
    assert_eq!(std_set_unions(&all), set_of(&[1, 2, 3, 9]));
    let none: std_Vec<std_Set<u16>> = std_Vec::new();
    assert_eq!(std_set_unions(&none), set_of(&[]));
}

#[test]
fn set_iter_walks_in_increasing_order() {
    let s = set_of(&[8, 1, 4]);
    let mut it = s.iter();
    assert_eq!(it.size_hint(), (3, Some(3)));
    assert_eq!(it.next(), Some(&1));
    assert_eq!(it.next(), Some(&4));
    assert_eq!(it.next(), Some(&8));
    assert_eq!(it.next(), None);
}

#[test]
fn map_get_after_insert_and_remove() {
    let mut m: std_Map<u16, u32> = std_map_empty();
    assert!(std_map_is_empty(&m));
    std_map_insert(&mut m, &1, &10);
    std_map_insert(&mut m, &2, &20);
    std_map_insert(&mut m, &1, &11);
    assert_eq!(std_map_get(&m, &1), std_Option::std_Some { x: 11 });
    assert_eq!(std_map_get(&m, &2), std_Option::std_Some { x: 20 });
    assert_eq!(std_map_get(&m, &3), std_Option::std_None);
    assert!(std_map_contains_key(&m, &2));
    std_map_remove(&mut m, &2);
    assert!(!std_map_contains_key(&m, &2));
    assert_eq!(std_map_get(&m, &2), std_Option::std_None);
    assert!(!std_map_is_empty(&m));
}

#[test]
fn map_union_prefers_the_second() {
    let a = std_map_singleton(&1u16, &100u32);
    let b = std_map_insert_imm(&std_map_singleton(&1u16, &200u32), &2, &300);
    let u = std_map_union(&a, &b);
    assert_eq!(std_map_get(&u, &1), std_Option::std_Some { x: 200 });
    assert_eq!(std_map_get(&u, &2), std_Option::std_Some { x: 300 });
    assert_eq!(std_map_get(&a, &2), std_Option::std_None);
}

#[test]
fn map_iter_walks_in_key_order() {
    let mut m: std_Map<u16, u32> = std_Map::new();
    m.insert(3, 30);
    m.insert(1, 10);
    let mut it = m.iter();
    assert_eq!(it.size_hint(), (2, Some(2)));
    assert_eq!(it.next(), Some((&1, &10)));
    assert_eq!(it.next(), Some((&3, &30)));
    assert_eq!(it.next(), None);
}

#[test]
fn group_basic_aggregates() {
    let g = std_Group::new(vec![4u32, 2, 9, 2]);
    assert_eq!(std_group_count(&g), 4);
    assert_eq!(std_group_first(&g), 4);
    assert_eq!(std_group_nth(&g, &2), std_Option::std_Some { x: 9 });
    assert_eq!(std_group_nth(&g, &4), std_Option::std_None);
    assert_eq!(std_group_min(&g), 2);
    assert_eq!(std_group_max(&g), 9);
    assert_eq!(std_group_sum(&g), 17);
    assert_eq!(std_group2vec(&g).x, vec![4, 2, 9, 2]);
    assert_eq!(std_group2set(&g).x.iter().cloned().collect::<Vec<u32>>(), vec![2, 4, 9]);
}

#[test]
fn group_min_and_max_pick_first_and_last_of_equals() {
    let g = std_Group::new(vec![(1u16, 7u32), (0, 3), (0, 5), (1, 2)]);
    assert_eq!(std_group_min(&g), (0, 3));
    assert_eq!(std_group_max(&g), (1, 7));
}

#[test]
fn group2map_keeps_the_last_value_of_a_key() {
    let g = std_Group::new(vec![(1u16, 10u32), (2, 20), (1, 30)]);
    let m = std_group2map(&g);
    assert_eq!(std_map_get(&m, &1), std_Option::std_Some { x: 30 });
    assert_eq!(std_map_get(&m, &2), std_Option::std_Some { x: 20 });
}

#[test]
fn group_set_unions_and_shared_unions() {
    let g = std_Group::new(vec![set_of(&[1, 2]), set_of(&[2, 5])]);
    assert_eq!(std_group_set_unions(&g), set_of(&[1, 2, 5]));
    let shared = Arc::new(set_of(&[7]));
    let one = std_Group::new(vec![shared.clone()]);
    let r = std_group_setref_unions(&one);
    assert!(Arc::ptr_eq(&r, &shared));
    let two = std_Group::new(vec![Arc::new(set_of(&[1])), Arc::new(set_of(&[3]))]);
    assert_eq!(*std_group_setref_unions(&two), set_of(&[1, 3]));
}

#[test]
fn group_iter_gives_clones_in_order() {
    let g = std_Group::new(vec![3u32, 1]);
    let mut it = g.iter();
    assert_eq!(it.size_hint(), (2, Some(2)));
    assert_eq!(it.next(), Some(3));
    assert_eq!(it.next(), Some(1));
    assert_eq!(it.next(), None);
}

#[test]
fn options_and_either() {
    assert_eq!(option2std(Some(3u32)), std_Option::std_Some { x: 3 });
    assert_eq!(option2std::<u32>(None), std_Option::std_None);
    assert!(std_is_some(&std_Option::std_Some { x: 1u8 }));
    assert!(std_is_none::<u8>(&std_Option::std_None));
    let d: std_Option<u32> = Default::default();
    assert_eq!(d, std_Option::std_Some { x: 0 });
    let e: std_Either<u16, u32> = Default::default();
    assert_eq!(e, std_Either::std_Left { l: 0 });
}

#[test]
fn min_max_and_refs() {
    assert_eq!(std_max(&3u32, &8), 8);
    assert_eq!(std_min(&3u32, &8), 3);
    assert_eq!(std_max(&(1u16, 2u16), &(1, 1)), (1, 2));
    let r = std_ref_new(&42u64);
    assert_eq!(*std_deref(&r), 42);
}
