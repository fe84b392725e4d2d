# climbing_sim

A 2-D climbing simulation. The verified library (`src/`) holds its discrete
part: the climber's body plan (`skeleton`), the order in which particle pairs
are tested for contact (`contact`), the choice of pose and of each joint's
target (`motion`), the corner layout of poses (`corner`) and the random hold
flags of new poses (`random`). The program in `app/` holds the
floating-point physics, the camera and the drawing, built with macroquad, and
uses the library for every index it follows.
