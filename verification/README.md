# asteroids

The rules of an Asteroids game for the browser, verified with Verus.

`src/` is the verified library:

- `asteroid`: asteroid sizes, the points each is worth, how a hit asteroid
  splits, and the size drawn for a new one.
- `ship`: whether the ship may fire.
- `collisions`: which asteroids can be struck, and how a shot or the ship is
  resolved against the field once the collision tests have been made.
- `score`: counting sizes on the field, and the laws that tie the score to
  the asteroids destroyed.
- `engine`: messages, the key map, keyboard handling and the asteroid spawn
  budget.
- `ufo`: the saucer's phases and its random spawning.
- `polygon`: the edge walk and verdict of the ray-casting point-in-polygon
  test, and why the verdict does not depend on the starting corner.
- `common`: the random number generator, behind trusted wrappers of `rand`.

`app/` is the Yew front end: positions, velocities and the other
floating-point geometry, the collision tests themselves, rendering, timers
and keyboard events. It calls the library for the game's discrete
decisions; those that turn on nothing but a floating-point comparison, such
as whether the hyperspace cooldown has run out, stay with it.
