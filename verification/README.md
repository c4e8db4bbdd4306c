# krusty_crap_drone

A drone for a simulated network in which packets carry their own routes. A drone hands packets on
to its neighbours, loses some fragments on purpose, answers those that it cannot hand on, and takes
part in floods that explore the network.

`src/` holds what the drone decides, verified with Verus:

- `network`, `packet`, `controller`, `input`: routes, packets, orders, reports, and what comes in;
- `single`: single-precision numbers as bit patterns, for the drop rate and the draws against it;
- `action`: what the drone asks its surroundings to do;
- `model`: the drone as a mathematical value, and what it does, stated over that value;
- `drone`: the drone itself, each function proved against the model;
- `laws`: what follows for the drone as a whole.

`app/` receives packets and commands from channels, performs the actions, and draws the random
numbers. `tests/` joins drones by channels and checks single decisions.
