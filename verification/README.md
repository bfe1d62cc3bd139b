# gradient_descent_neuron

A single neuron (`y = w·x + b`) trained on a small dataset in two ways — a
fixed ±0.01 step and gradient descent on the mean squared error — with plots
of the fits, the loss curves and the paths on the loss parabola.

- `src/` is verified with Verus. It holds the integer decisions: the epoch
  schedule (`schedule`: one step per epoch, in order, a progress report every
  100 epochs, with laws on the whole run), the rule of the fixed-step trainer
  (`naive`), and the marker style of a training path (`markers`).
- `app/` is the program: the floating-point model, the training arithmetic
  and the plotters drawings, driven by the library's decisions.
- `tests/` exercises the library.
