# redistribution_span

The `redistributionspan` Datalog program computes, for every entity, the
transport nodes that its span reaches: those bound to the entity itself and
those of the entities it depends on.

```
Span(entity, bindings) :- DdlogNode(entity), DdlogBinding(tn, entity),
                          var bindings = Aggregate((entity), group2set(tn)).
Span(parent, tns)      :- DdlogNode(parent), DdlogDependency(child, parent),
                          Span(child, child_tns),
                          var tns = Aggregate((parent), group_set_unions(child_tns)).
```

`src/` is the verified library, checked by Verus:

- `vec`, `set`, `map`, `option`, `group`, `strings`, `misc`: the standard
  library of the Datalog dialect (collections, groups and their aggregates,
  strings, parsing, ranges, byte order, hashing);
- `order`: what ordered collections ask of the order of their elements;
- `record`, `types`, `relations`: the untyped records through which
  relations are read, the program's values, and the relation tables;
- `rules`: each step of the two rules above;
- `format`: the text forms of the values;
- `log`: which log messages reach their callbacks;
- `laws`: properties that span several functions.

`app/` holds what Verus does not see: serialisable copies of the types, the
global logging state and its C entry point, the graph operators of
differential dataflow, and the assembly of the program for the differential
datalog engine. `tests/` runs the library on concrete values.
