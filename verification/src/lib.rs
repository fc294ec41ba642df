//! Verified application rules of the HomeMagic local-first home automation system.
#![allow(unused_imports)]

pub mod ports;
pub mod policy;
pub mod matter_controller;
pub mod time;
pub mod digest;
pub mod matter_subscription;
pub mod matter_subscription_repair;
pub mod matter_projection;
pub mod automation_compiler;
pub mod target_resolution;
pub mod condition_compiler;
pub mod trigger_compiler;
pub mod action_compiler;
pub mod plan_compiler;
pub mod automation_runtime;
pub mod authentication;
pub mod matter_administration;
pub mod matter_diagnostics;
pub mod automation_events;
pub mod automation_scheduler;
pub mod automation_evaluator;
pub mod automation_simulator;
pub mod simulation;
pub mod simulation_run;
pub mod simulator;
pub mod closed_plans;
pub mod matter_commands;
pub mod matter_repository;
pub mod matter_inventory;
pub mod matter_fabric_workflow;
pub mod matter_node_workflow;
pub mod automation_engine;
pub mod automation_lifecycle;
pub mod command_service;
pub mod memory;
pub mod application;
pub mod runtime_condition;
