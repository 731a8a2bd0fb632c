# coil_typecheck

Hindley-Milner type inference for the coil language, verified with Verus.

A `Checker` takes the syntax tree of a program (`ast`), infers a type for every
node, and collects the diagnostics and the recipes that code generation needs:
trait dictionaries per call, enum tags and payloads, `for` loop lowering, class
fields and methods.

- `tree`, `ty`, `kind`: types and kinds, and the trees that the contracts speak of.
- `subst`, `unify`, `soundness`: substitutions, unification, and what it promises.
- `env`: type schemes and scopes.
- `generics`: traits, instances and dictionary layouts.
- `infer`: the checker. `infer/program` checks whole programs, `infer/exprs` is
  the traversal, `infer/lookup` answers questions afterwards, and
  `infer/properties` states what holds of the checker as a whole. `infer/growth`
  proves of every step that it takes nothing back.
- `aggregate_arith`: arithmetic on tuples, arrays and matrices.
- `const_eval`: folding of loop conditions.
- `id`: the ids of the nodes.
- `virtual_modules`: what the builtin modules export.
- `maps`, `text`, `report`: tables, strings and diagnostics.

Every executable function is specified by a function on models: the model of a
checker is `CheckerV`, and `c.f(x)` on the model says what `c.f(x)` does and
returns.

`app/` folds float constants, which the library leaves open as questions, and hands
a checker the IO errors of its host.
